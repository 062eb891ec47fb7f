//! The argument resolver: stage names and their order, the scan model, and
//! the step machine that follows it.
use crate::error::{SymbolicError, SymbolicErrorKind};
use crate::namedrw::{NamedRead, NamedWrite};
use vstd::prelude::*;

verus! {

/// Enum to indicate IRs in the progress.
#[derive(Debug, Clone, Copy, PartialEq, Eq, Structural)]
pub enum IR {
    /// Runned code (can't be `from`).
    Output,
    /// Compiled bytecode.
    Bytecode,
    /// Parsed AST.
    AST,
    /// Tokenized token stream.
    TokenStream,
    /// Source code (can't be `to`)
    Src,
}

impl IR {
    /// Position of the stage in the pipeline, from least to most processed.
    pub open spec fn spec_rank(self) -> int {
        match self {
            IR::Src => 0,
            IR::TokenStream => 1,
            IR::AST => 2,
            IR::Bytecode => 3,
            IR::Output => 4,
        }
    }

    /// Position of the stage in the pipeline, from least to most processed.
    pub fn rank(&self) -> (r: u8)
        ensures
            r as int == self.spec_rank(),
    {
        match self {
            IR::Src => 0,
            IR::TokenStream => 1,
            IR::AST => 2,
            IR::Bytecode => 3,
            IR::Output => 4,
        }
    }
}

/// The total order of the stages, by rank.
pub open spec fn stage_cmp(a: IR, b: IR) -> core::cmp::Ordering {
    if a.spec_rank() < b.spec_rank() {
        core::cmp::Ordering::Less
    } else if a.spec_rank() == b.spec_rank() {
        core::cmp::Ordering::Equal
    } else {
        core::cmp::Ordering::Greater
    }
}

impl PartialOrd for IR {
    fn partial_cmp(&self, rhs: &Self) -> (r: Option<core::cmp::Ordering>)
        ensures
            r == Some(stage_cmp(*self, *rhs)),
    {
        let a_val = self.rank();
        let b_val = rhs.rank();
        if a_val < b_val {
            Some(core::cmp::Ordering::Less)
        } else if a_val == b_val {
            Some(core::cmp::Ordering::Equal)
        } else {
            Some(core::cmp::Ordering::Greater)
        }
    }
}

impl vstd::std_specs::cmp::PartialOrdSpecImpl for IR {
    open spec fn obeys_partial_cmp_spec() -> bool {
        true
    }

    open spec fn partial_cmp_spec(&self, other: &IR) -> Option<core::cmp::Ordering> {
        Some(stage_cmp(*self, *other))
    }
}

/// The stage that `--from <value>` names, if any.
pub open spec fn source_stage_named(value: Seq<char>) -> Option<IR> {
    if value == "src"@ || value == "source"@ {
        Some(IR::Src)
    } else if value == "tokens"@ {
        Some(IR::TokenStream)
    } else if value == "ast"@ {
        Some(IR::AST)
    } else if value == "bytecode"@ {
        Some(IR::Bytecode)
    } else {
        None
    }
}

/// The stage that `--to <value>` names, if any. Source text is never a target.
pub open spec fn target_stage_named(value: Seq<char>) -> Option<IR> {
    if value == "tokens"@ {
        Some(IR::TokenStream)
    } else if value == "ast"@ {
        Some(IR::AST)
    } else if value == "bytecode"@ {
        Some(IR::Bytecode)
    } else {
        None
    }
}

/// Whether two strings hold the same characters.
fn same_text(a: &str, b: &str) -> (r: bool)
    ensures
        r == (a@ == b@),
{
    let n = a.unicode_len();
    if n != b.unicode_len() {
        return false;
    }
    let mut i: usize = 0;
    while i < n
        invariant
            n == a@.len(),
            n == b@.len(),
            i <= n,
            a@.subrange(0, i as int) == b@.subrange(0, i as int),
        decreases n - i,
    {
        if a.get_char(i) != b.get_char(i) {
            return false;
        }
        assert(a@.subrange(0, i + 1) == a@.subrange(0, i as int).push(a@[i as int]));
        assert(b@.subrange(0, i + 1) == b@.subrange(0, i as int).push(b@[i as int]));
        i = i + 1;
    }
    assert(a@ == a@.subrange(0, n as int));
    assert(b@ == b@.subrange(0, n as int));
    true
}

/// Reads the value of a `--from` option.
pub fn source_stage(value: &str) -> (r: Option<IR>)
    ensures
        r == source_stage_named(value@),
{
    if same_text(value, "src") || same_text(value, "source") {
        Some(IR::Src)
    } else if same_text(value, "tokens") {
        Some(IR::TokenStream)
    } else if same_text(value, "ast") {
        Some(IR::AST)
    } else if same_text(value, "bytecode") {
        Some(IR::Bytecode)
    } else {
        None
    }
}

/// Reads the value of a `--to` option.
pub fn target_stage(value: &str) -> (r: Option<IR>)
    ensures
        r == target_stage_named(value@),
{
    if same_text(value, "tokens") {
        Some(IR::TokenStream)
    } else if same_text(value, "ast") {
        Some(IR::AST)
    } else if same_text(value, "bytecode") {
        Some(IR::Bytecode)
    } else {
        None
    }
}

/// Optimization config.
#[derive(Debug, Clone, Copy, PartialEq, Eq, Structural)]
pub struct OptConfig {
    /// Pre-calculate values of constant expressions.
    pub constant_fold: bool,
    /// Remove unreachable code (or 'dead code').
    pub remove_dead_code: bool,
}

impl OptConfig {
    /// Both optimizations off.
    pub fn new() -> (r: OptConfig)
        ensures
            !r.constant_fold,
            !r.remove_dead_code,
    {
        OptConfig { constant_fold: false, remove_dead_code: false }
    }
}

impl Default for OptConfig {
    fn default() -> (r: OptConfig)
        ensures
            !r.constant_fold,
            !r.remove_dead_code,
    {
        OptConfig::new()
    }
}

/// Struct of arguments: the resolved run configuration.
#[derive(Debug)]
pub struct Args<R, W> {
    /// The status we has.
    pub from: IR,
    /// The status we're going to.
    pub to: IR,
    /// The input file.
    pub input: NamedRead<R>,
    /// The output file.
    pub output: NamedWrite<W>,
    /// The optimize config.
    pub optimize_config: OptConfig,
}

impl<R, W> Args<R, W> {
    /// Puts a resolved stage range and its two handles together, with both
    /// optimizations off.
    pub fn new(from: IR, to: IR, input: NamedRead<R>, output: NamedWrite<W>) -> (r: Args<R, W>)
        ensures
            r.from == from,
            r.to == to,
            r.input == input,
            r.output == output,
            !r.optimize_config.constant_fold,
            !r.optimize_config.remove_dead_code,
    {
        Args { from, to, input, output, optimize_config: OptConfig::new() }
    }
}

/// The resolver's state between two steps, as values.
pub struct ScanState {
    /// The arguments after the program's name.
    pub tokens: Seq<Seq<char>>,
    /// Index of the next token to read.
    pub pos: int,
    /// The stage the input is in.
    pub from: IR,
    /// The stage to stop at.
    pub to: IR,
    /// The token that filled the input slot, if one did.
    pub input: Option<Seq<char>>,
    /// The token that filled the output slot, if one did.
    pub output: Option<Seq<char>>,
    /// The error that stopped the scan, if any.
    pub failure: Option<SymbolicErrorKind>,
}

/// What one step asks of the caller.
pub enum Decision {
    /// Nothing to do; step again.
    Continue,
    /// Open the file at this path for reading and bind it as the input.
    OpenInput(Seq<char>),
    /// Create the file at this path and bind it as the output.
    OpenOutput(Seq<char>),
    /// The scan failed with this error.
    Fail(SymbolicErrorKind),
    /// The scan is done and the stage range is valid.
    Finish,
}

/// The resolved configuration, as values: a slot that no token filled, or
/// that `-` filled, is bound to the standard stream.
pub struct Resolution {
    /// The stage the input is in.
    pub from: IR,
    /// The stage to stop at.
    pub to: IR,
    /// The token that filled the input slot, if one did.
    pub input: Option<Seq<char>>,
    /// The token that filled the output slot, if one did.
    pub output: Option<Seq<char>>,
}

/// Whether a slot filled by `slot` is bound to the standard stream.
pub open spec fn binds_standard(slot: Option<Seq<char>>) -> bool {
    slot is None || slot == Some("-"@)
}

/// The display name of the handle that a slot filled by `slot` gets.
pub open spec fn slot_name(slot: Option<Seq<char>>) -> Seq<char> {
    match slot {
        Some(t) => t,
        None => "-"@,
    }
}

/// The state before any token is read.
pub open spec fn initial_state(tokens: Seq<Seq<char>>) -> ScanState {
    ScanState {
        tokens,
        pos: 0,
        from: IR::Src,
        to: IR::Output,
        input: None,
        output: None,
        failure: None,
    }
}

/// The states a scan can be in.
pub open spec fn well_formed(s: ScanState) -> bool {
    0 <= s.pos <= s.tokens.len()
}

/// Stops the scan with `kind`.
pub open spec fn failed(s: ScanState, kind: SymbolicErrorKind) -> (ScanState, Decision) {
    (ScanState { failure: Some(kind), ..s }, Decision::Fail(kind))
}

/// One step of the resolver: the next state and what the caller must do.
pub open spec fn next_step(s: ScanState) -> (ScanState, Decision) {
    if s.failure is Some {
        (s, Decision::Fail(s.failure->0))
    } else if s.pos >= s.tokens.len() {
        if s.from.spec_rank() <= s.to.spec_rank() {
            (s, Decision::Finish)
        } else {
            failed(s, SymbolicErrorKind::ParseargInvalidOption)
        }
    } else if s.tokens[s.pos] == "--from"@ {
        if s.pos + 1 >= s.tokens.len() {
            failed(s, SymbolicErrorKind::ParseargInvalidOption)
        } else {
            match source_stage_named(s.tokens[s.pos + 1]) {
                Some(stage) => (ScanState { from: stage, pos: s.pos + 2, ..s }, Decision::Continue),
                None => failed(s, SymbolicErrorKind::ParseargInvalidOption),
            }
        }
    } else if s.tokens[s.pos] == "--to"@ {
        if s.pos + 1 >= s.tokens.len() {
            failed(s, SymbolicErrorKind::ParseargInvalidOption)
        } else {
            match target_stage_named(s.tokens[s.pos + 1]) {
                Some(stage) => (ScanState { to: stage, pos: s.pos + 2, ..s }, Decision::Continue),
                None => failed(s, SymbolicErrorKind::ParseargInvalidOption),
            }
        }
    } else {
        let name = s.tokens[s.pos];
        if s.output is Some {
            failed(s, SymbolicErrorKind::ParseargTooManyFiles)
        } else if s.input is Some {
            (
                ScanState { output: Some(name), pos: s.pos + 1, ..s },
                if name == "-"@ {
                    Decision::Continue
                } else {
                    Decision::OpenOutput(name)
                },
            )
        } else {
            (
                ScanState { input: Some(name), pos: s.pos + 1, ..s },
                if name == "-"@ {
                    Decision::Continue
                } else {
                    Decision::OpenInput(name)
                },
            )
        }
    }
}

/// Where the scan from `s` ends when every requested file opens: the
/// resolved configuration, or the error that stopped it.
pub open spec fn outcome(s: ScanState) -> Result<Resolution, SymbolicErrorKind>
    decreases s.tokens.len() - s.pos,
{
    let (n, d) = next_step(s);
    match d {
        Decision::Fail(kind) => Err(kind),
        Decision::Finish => Ok(Resolution { from: s.from, to: s.to, input: s.input, output: s.output }),
        _ => outcome(n),
    }
}

/// The outcome of the whole argument list, program name first, when every
/// requested file opens.
pub open spec fn resolve(args: Seq<Seq<char>>) -> Result<Resolution, SymbolicErrorKind> {
    if args.len() == 0 {
        Err(SymbolicErrorKind::ParseargInvalidOption)
    } else {
        outcome(initial_state(args.drop_first()))
    }
}

/// What one step asks of the caller.
#[derive(Debug, PartialEq, Eq)]
pub enum Action {
    /// Nothing to do; step again.
    Continue,
    /// Open the file at this path for reading and bind it as the input.
    OpenInput(String),
    /// Create the file at this path and bind it as the output.
    OpenOutput(String),
    /// The scan failed with this error.
    Fail(SymbolicErrorKind),
    /// The scan is done and the stage range is valid.
    Finish,
}

impl View for Action {
    type V = Decision;

    open spec fn view(&self) -> Decision {
        match self {
            Action::Continue => Decision::Continue,
            Action::OpenInput(p) => Decision::OpenInput(p@),
            Action::OpenOutput(p) => Decision::OpenOutput(p@),
            Action::Fail(kind) => Decision::Fail(*kind),
            Action::Finish => Decision::Finish,
        }
    }
}

/// The argument resolver: reads the arguments one option or file name at a
/// time, and says after each what the caller must do.
pub struct ArgScanner {
    tokens: Vec<String>,
    pos: usize,
    from: IR,
    to: IR,
    input: Option<String>,
    output: Option<String>,
    failure: Option<SymbolicErrorKind>,
}

/// The text of a filled slot.
pub open spec fn slot_view(slot: Option<String>) -> Option<Seq<char>> {
    match slot {
        Some(t) => Some(t@),
        None => None,
    }
}

impl View for ArgScanner {
    type V = ScanState;

    closed spec fn view(&self) -> ScanState {
        ScanState {
            tokens: self.tokens.deep_view(),
            pos: self.pos as int,
            from: self.from,
            to: self.to,
            input: slot_view(self.input),
            output: slot_view(self.output),
            failure: self.failure,
        }
    }
}

impl ArgScanner {
    #[verifier::type_invariant]
    spec fn inv(&self) -> bool {
        self.pos <= self.tokens.len()
    }

    /// Starts a scan of `args`, whose first element, the program's name, is
    /// dropped. Fails with an invalid option when there is no first element.
    pub fn new(args: Vec<String>) -> (r: Result<ArgScanner, SymbolicError>)
        ensures
            match r {
                Ok(scanner) => args@.len() > 0 && scanner@ == initial_state(
                    args.deep_view().drop_first(),
                ),
                Err(e) => args@.len() == 0 && e.kind == SymbolicErrorKind::ParseargInvalidOption
                    && e.description is None,
            },
    {
        let mut args = args;
        if args.len() == 0 {
            return Err(SymbolicError::from(SymbolicErrorKind::ParseargInvalidOption));
        }
        let ghost all = args.deep_view();
        args.remove(0);
        assert(args.deep_view() =~= all.drop_first());
        Ok(
            ArgScanner {
                tokens: args,
                pos: 0,
                from: IR::Src,
                to: IR::Output,
                input: None,
                output: None,
                failure: None,
            },
        )
    }

    /// The stage the input is in, as resolved so far.
    pub fn from(&self) -> (r: IR)
        ensures
            r == self@.from,
    {
        self.from
    }

    /// The stage to stop at, as resolved so far.
    pub fn to(&self) -> (r: IR)
        ensures
            r == self@.to,
    {
        self.to
    }

    /// Stops the scan with `kind`.
    fn fail(&mut self, kind: SymbolicErrorKind) -> (r: Action)
        ensures
            (final(self)@, r@) == failed(old(self)@, kind),
    {
        proof {
            use_type_invariant(&*self);
        }
        self.failure = Some(kind);
        Action::Fail(kind)
    }

    /// Reads the next option or file name, and says what the caller must do.
    /// Once it has failed or finished, it says so again on every call.
    pub fn step(&mut self) -> (r: Action)
        ensures
            (final(self)@, r@) == next_step(old(self)@),
            well_formed(final(self)@),
    {
        proof {
            use_type_invariant(&*self);
        }
        if let Some(kind) = self.failure {
            return Action::Fail(kind);
        }
        let n = self.tokens.len();
        if self.pos >= n {
            if self.from.rank() <= self.to.rank() {
                return Action::Finish;
            } else {
                return self.fail(SymbolicErrorKind::ParseargInvalidOption);
            }
        }
        let ghost tokens = self.tokens.deep_view();
        assert(tokens[self.pos as int] == self.tokens@[self.pos as int]@);
        let is_from = same_text(self.tokens[self.pos].as_str(), "--from");
        let is_to = same_text(self.tokens[self.pos].as_str(), "--to");
        if is_from || is_to {
            if self.pos + 1 >= n {
                return self.fail(SymbolicErrorKind::ParseargInvalidOption);
            }
            assert(tokens[self.pos + 1] == self.tokens@[self.pos + 1]@);
            if is_from {
                match source_stage(self.tokens[self.pos + 1].as_str()) {
                    Some(stage) => {
                        self.from = stage;
                        self.pos = self.pos + 2;
                        Action::Continue
                    },
                    None => self.fail(SymbolicErrorKind::ParseargInvalidOption),
                }
            } else {
                match target_stage(self.tokens[self.pos + 1].as_str()) {
                    Some(stage) => {
                        self.to = stage;
                        self.pos = self.pos + 2;
                        Action::Continue
                    },
                    None => self.fail(SymbolicErrorKind::ParseargInvalidOption),
                }
            }
        } else if self.output.is_some() {
            self.fail(SymbolicErrorKind::ParseargTooManyFiles)
        } else {
            let name = self.tokens[self.pos].clone();
            let standard = same_text(name.as_str(), "-");
            if self.input.is_some() {
                self.output = Some(name.clone());
                self.pos = self.pos + 1;
                if standard {
                    Action::Continue
                } else {
                    Action::OpenOutput(name)
                }
            } else {
                self.input = Some(name.clone());
                self.pos = self.pos + 1;
                if standard {
                    Action::Continue
                } else {
                    Action::OpenInput(name)
                }
            }
        }
    }
}

} // verus!
