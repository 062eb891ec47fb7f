//! Laws of the argument resolver, stated over the scan model and proved.
use crate::error::SymbolicErrorKind;
use crate::parsearg::{
    initial_state, next_step, outcome, resolve, source_stage_named, target_stage_named,
    well_formed, Decision, Resolution, ScanState, IR, binds_standard, slot_name,
};
use vstd::prelude::*;

verus! {

/// Whether `name value` is a well-formed stage option.
pub open spec fn is_option_pair(name: Seq<char>, value: Seq<char>) -> bool {
    ||| name == "--from"@ && source_stage_named(value) is Some
    ||| name == "--to"@ && target_stage_named(value) is Some
}

/// Whether `opts` is a run of well-formed stage options and nothing else.
pub open spec fn valid_options(opts: Seq<Seq<char>>) -> bool
    decreases opts.len(),
{
    if opts.len() == 0 {
        true
    } else {
        opts.len() >= 2 && is_option_pair(opts[0], opts[1]) && valid_options(
            opts.subrange(2, opts.len() as int),
        )
    }
}

/// The state after the resolver has read the options `opts` from `s`.
pub open spec fn apply_options(s: ScanState, opts: Seq<Seq<char>>) -> ScanState
    decreases opts.len(),
{
    if opts.len() < 2 {
        s
    } else {
        apply_options(next_step(s).0, opts.subrange(2, opts.len() as int))
    }
}

/// The words of the command line are pairwise distinct.
proof fn reveal_words()
    ensures
        "--from"@ != "--to"@,
        "--from"@ != "-"@,
        "--to"@ != "-"@,
        "src"@ != "source"@,
        "src"@ != "tokens"@,
        "src"@ != "ast"@,
        "src"@ != "bytecode"@,
        "source"@ != "tokens"@,
        "source"@ != "ast"@,
        "source"@ != "bytecode"@,
        "tokens"@ != "ast"@,
        "tokens"@ != "bytecode"@,
        "ast"@ != "bytecode"@,
        "output"@ != "src"@,
        "output"@ != "source"@,
        "output"@ != "tokens"@,
        "output"@ != "ast"@,
        "output"@ != "bytecode"@,
{
    reveal_strlit("--from");
    reveal_strlit("--to");
    reveal_strlit("-");
    reveal_strlit("src");
    reveal_strlit("source");
    reveal_strlit("tokens");
    reveal_strlit("ast");
    reveal_strlit("bytecode");
    reveal_strlit("output");
    assert("--from"@[2] != "--to"@[2]);
    assert("--from"@.len() == 6 && "--to"@.len() == 4 && "-"@.len() == 1);
    assert("src"@.len() == 3 && "ast"@.len() == 3 && "bytecode"@.len() == 8);
    assert("source"@.len() == 6 && "tokens"@.len() == 6 && "output"@.len() == 6);
    assert("src"@[0] != "ast"@[0]);
    assert("src"@[1] != "source"@[1]);
    assert("source"@[0] != "tokens"@[0]);
    assert("output"@[0] != "source"@[0]);
    assert("output"@[0] != "tokens"@[0]);
}

/// Reading well-formed stage options changes the stages only: the scan goes
/// on past them with the same slots, and ends as it would from there.
pub proof fn lemma_options_pass(s: ScanState, opts: Seq<Seq<char>>)
    requires
        well_formed(s),
        s.failure is None,
        valid_options(opts),
        s.pos + opts.len() <= s.tokens.len(),
        s.tokens.subrange(s.pos, s.pos + opts.len()) == opts,
    ensures
        ({
            let a = apply_options(s, opts);
            &&& well_formed(a)
            &&& a.pos == s.pos + opts.len()
            &&& a.tokens == s.tokens
            &&& a.input == s.input
            &&& a.output == s.output
            &&& a.failure is None
            &&& outcome(s) == outcome(a)
        }),
    decreases opts.len(),
{
    if opts.len() >= 2 {
        reveal_words();
        assert(s.tokens[s.pos] == opts[0]);
        assert(s.tokens[s.pos + 1] == opts[1]);
        let n = next_step(s).0;
        let rest = opts.subrange(2, opts.len() as int);
        assert(n.tokens.subrange(n.pos, n.pos + rest.len()) =~= rest);
        lemma_options_pass(n, rest);
    }
}

/// An argument list made of a program name and stage options alone resolves
/// exactly when the stages those options leave satisfy `from <= to`; when
/// they do not, it fails with an invalid option. No file slot is filled.
pub proof fn lemma_stage_range(program: Seq<char>, opts: Seq<Seq<char>>)
    requires
        valid_options(opts),
    ensures
        ({
            let a = apply_options(initial_state(opts), opts);
            resolve(seq![program] + opts) == if a.from.spec_rank() <= a.to.spec_rank() {
                Ok(Resolution { from: a.from, to: a.to, input: None, output: None })
            } else {
                Err(SymbolicErrorKind::ParseargInvalidOption)
            }
        }),
{
    let args = seq![program] + opts;
    assert(args.drop_first() =~= opts);
    let s = initial_state(opts);
    assert(s.tokens.subrange(0, opts.len() as int) =~= opts);
    lemma_options_pass(s, opts);
}

/// The words that name a stage on the command line.
pub open spec fn stage_word(stage: IR) -> Seq<char> {
    match stage {
        IR::Src => "src"@,
        IR::TokenStream => "tokens"@,
        IR::AST => "ast"@,
        IR::Bytecode => "bytecode"@,
        IR::Output => "output"@,
    }
}

/// The options that ask for the stage range `from`..`to`: `to` is left to
/// its default when it is the executed output.
pub open spec fn range_options(from: IR, to: IR) -> Seq<Seq<char>> {
    if to == IR::Output {
        seq!["--from"@, stage_word(from)]
    } else {
        seq!["--from"@, stage_word(from), "--to"@, stage_word(to)]
    }
}

/// For every stage pair that the command line can ask for, the arguments
/// resolve to that pair when `from <= to`, and fail with an invalid option
/// when `from > to`.
pub proof fn lemma_every_stage_pair(program: Seq<char>, from: IR, to: IR)
    requires
        from != IR::Output,
        to != IR::Src,
    ensures
        from.spec_rank() <= to.spec_rank() ==> resolve(seq![program] + range_options(from, to))
            == Ok::<Resolution, SymbolicErrorKind>(Resolution { from, to, input: None, output: None }),
        from.spec_rank() > to.spec_rank() ==> resolve(seq![program] + range_options(from, to))
            == Err::<Resolution, SymbolicErrorKind>(SymbolicErrorKind::ParseargInvalidOption),
{
    reveal_words();
    let opts = range_options(from, to);
    let s = initial_state(opts);
    assert(source_stage_named(stage_word(from)) == Some(from));
    let tail = opts.subrange(2, opts.len() as int);
    let s1 = next_step(s).0;
    assert(s1.from == from && s1.to == IR::Output && s1.pos == 2);
    if to != IR::Output {
        assert(target_stage_named(stage_word(to)) == Some(to));
        assert(tail.subrange(2, tail.len() as int) =~= Seq::<Seq<char>>::empty());
        assert(valid_options(tail.subrange(2, tail.len() as int)));
        assert(tail.len() == 2);
        assert(is_option_pair(tail[0], tail[1]));
        assert(valid_options(tail));
        assert(is_option_pair(opts[0], opts[1]));
        assert(valid_options(opts));
        let s2 = next_step(s1).0;
        assert(s2.to == to && s2.from == from);
        assert(apply_options(s2, tail.subrange(2, tail.len() as int)) == s2);
        assert(apply_options(s1, tail) == s2);
    } else {
        assert(tail =~= Seq::<Seq<char>>::empty());
        assert(valid_options(tail));
        assert(is_option_pair(opts[0], opts[1]));
        assert(valid_options(opts));
        assert(apply_options(s1, tail) == s1);
    }
    lemma_stage_range(program, opts);
}

/// Without file names, both slots stay bound to the standard streams, whose
/// handles are named `-`.
pub proof fn lemma_no_files_standard(program: Seq<char>, opts: Seq<Seq<char>>)
    requires
        valid_options(opts),
    ensures
        resolve(seq![program] + opts) matches Ok(c) ==> {
            &&& binds_standard(c.input)
            &&& binds_standard(c.output)
            &&& slot_name(c.input) == "-"@
            &&& slot_name(c.output) == "-"@
        },
{
    lemma_stage_range(program, opts);
}

/// The scan from a state reads no token before its position: two states that
/// differ only in tokens already read end alike.
pub proof fn lemma_outcome_reads_ahead(s: ScanState, t: ScanState)
    requires
        well_formed(s),
        t == (ScanState { tokens: t.tokens, ..s }),
        t.tokens.len() == s.tokens.len(),
        forall|i: int| s.pos <= i < s.tokens.len() ==> s.tokens[i] == t.tokens[i],
    ensures
        outcome(s) == outcome(t),
    decreases s.tokens.len() - s.pos,
{
    if s.failure is None && s.pos < s.tokens.len() {
        assert(s.tokens[s.pos] == t.tokens[s.pos]);
        if s.pos + 1 < s.tokens.len() {
            assert(s.tokens[s.pos + 1] == t.tokens[s.pos + 1]);
        }
        let (n, d) = next_step(s);
        let (m, e) = next_step(t);
        assert(d == e);
        assert(m == (ScanState { tokens: m.tokens, ..n }));
        match d {
            Decision::Fail(_) => {},
            Decision::Finish => {},
            _ => {
                lemma_outcome_reads_ahead(n, m);
            },
        }
    }
}

/// `--from source` and `--from src` are the same option: at any point of a
/// scan, reading either sets the input stage to source text, and the scan
/// ends alike.
pub proof fn lemma_source_alias(s: ScanState)
    requires
        well_formed(s),
        s.pos + 1 < s.tokens.len(),
        s.tokens[s.pos] == "--from"@,
        s.tokens[s.pos + 1] == "source"@,
    ensures
        ({
            let t = ScanState { tokens: s.tokens.update(s.pos + 1, "src"@), ..s };
            &&& outcome(s) == outcome(t)
            &&& s.failure is None ==> next_step(s).0.from == IR::Src && next_step(t).0.from
                == IR::Src
        }),
{
    reveal_words();
    let t = ScanState { tokens: s.tokens.update(s.pos + 1, "src"@), ..s };
    if s.failure is None {
        let n = next_step(s).0;
        let m = next_step(t).0;
        assert(next_step(s).1 == next_step(t).1);
        lemma_outcome_reads_ahead(n, m);
    }
}

/// `--to source` is always refused with an invalid option: whatever stage
/// options come before it and whatever follows it.
pub proof fn lemma_target_source_rejected(
    program: Seq<char>,
    opts: Seq<Seq<char>>,
    rest: Seq<Seq<char>>,
)
    requires
        valid_options(opts),
    ensures
        resolve(seq![program] + opts + seq!["--to"@, "source"@] + rest) == Err::<
            Resolution,
            SymbolicErrorKind,
        >(SymbolicErrorKind::ParseargInvalidOption),
{
    reveal_words();
    let args = seq![program] + opts + seq!["--to"@, "source"@] + rest;
    let tokens = opts + seq!["--to"@, "source"@] + rest;
    assert(args.drop_first() =~= tokens);
    let s = initial_state(tokens);
    assert(tokens.subrange(0, opts.len() as int) =~= opts);
    lemma_options_pass(s, opts);
    let a = apply_options(s, opts);
    assert(a.tokens[a.pos] == "--to"@);
    assert(a.tokens[a.pos + 1] == "source"@);
}

/// Whether a token is read as a file name rather than as an option.
pub open spec fn is_file_token(token: Seq<char>) -> bool {
    token != "--from"@ && token != "--to"@
}

/// A third file name is refused with too many file arguments, whatever
/// well-formed stage options stand between the names and whatever follows.
pub proof fn lemma_third_file_rejected(
    program: Seq<char>,
    opts1: Seq<Seq<char>>,
    first: Seq<char>,
    opts2: Seq<Seq<char>>,
    second: Seq<char>,
    opts3: Seq<Seq<char>>,
    third: Seq<char>,
    rest: Seq<Seq<char>>,
)
    requires
        valid_options(opts1),
        valid_options(opts2),
        valid_options(opts3),
        is_file_token(first),
        is_file_token(second),
        is_file_token(third),
    ensures
        resolve(
            seq![program] + opts1 + seq![first] + opts2 + seq![second] + opts3 + seq![third]
                + rest,
        ) == Err::<Resolution, SymbolicErrorKind>(SymbolicErrorKind::ParseargTooManyFiles),
{
    let tokens = opts1 + seq![first] + opts2 + seq![second] + opts3 + seq![third] + rest;
    let args = seq![program] + opts1 + seq![first] + opts2 + seq![second] + opts3 + seq![third]
        + rest;
    assert(args.drop_first() =~= tokens);
    let pa = opts1.len() as int;
    let pb = pa + 1 + opts2.len();
    let pc = pb + 1 + opts3.len();
    assert(tokens[pa] == first);
    assert(tokens[pb] == second);
    assert(tokens[pc] == third);
    let s0 = initial_state(tokens);
    assert(tokens.subrange(0, pa) =~= opts1);
    lemma_options_pass(s0, opts1);
    let a1 = apply_options(s0, opts1);
    let n1 = next_step(a1).0;
    assert(n1.input is Some && n1.output is None && n1.pos == pa + 1);
    assert(tokens.subrange(pa + 1, pb) =~= opts2);
    lemma_options_pass(n1, opts2);
    let a2 = apply_options(n1, opts2);
    let n2 = next_step(a2).0;
    assert(n2.output is Some && n2.pos == pb + 1);
    assert(tokens.subrange(pb + 1, pc) =~= opts3);
    lemma_options_pass(n2, opts3);
    let a3 = apply_options(n2, opts3);
    assert(next_step(a3).1 == Decision::Fail(SymbolicErrorKind::ParseargTooManyFiles));
}

/// A later stage option overwrites an earlier one of the same name: after
/// `name x name y`, the scan is where skipping `name x` would have put it.
pub proof fn lemma_last_option_wins(s: ScanState, name: Seq<char>, x: Seq<char>, y: Seq<char>)
    requires
        well_formed(s),
        s.failure is None,
        s.pos + 4 <= s.tokens.len(),
        s.tokens[s.pos] == name,
        s.tokens[s.pos + 1] == x,
        s.tokens[s.pos + 2] == name,
        s.tokens[s.pos + 3] == y,
        is_option_pair(name, x),
        is_option_pair(name, y),
    ensures
        ({
            let skipped = ScanState { pos: s.pos + 2, ..s };
            &&& next_step(next_step(s).0).0 == next_step(skipped).0
            &&& outcome(s) == outcome(skipped)
        }),
{
    reveal_words();
    let skipped = ScanState { pos: s.pos + 2, ..s };
    let n1 = next_step(s).0;
    assert(next_step(s).1 == Decision::Continue);
    assert(next_step(n1).1 == Decision::Continue);
    assert(next_step(skipped).1 == Decision::Continue);
    assert(next_step(n1).0 == next_step(skipped).0);
    assert(outcome(s) == outcome(n1));
    assert(outcome(n1) == outcome(next_step(n1).0));
    assert(outcome(skipped) == outcome(next_step(skipped).0));
}

/// The first file name is opened before any later token is read: when that
/// open fails, its error is the one the caller reports, whatever follows.
pub proof fn lemma_input_opened_first(path: Seq<char>, rest: Seq<Seq<char>>)
    requires
        is_file_token(path),
        path != "-"@,
    ensures
        next_step(initial_state(seq![path] + rest)).1 == Decision::OpenInput(path),
{
    assert((seq![path] + rest)[0] == path);
}

} // verus!
