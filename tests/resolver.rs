use symbolic::error::{IoCategory, SymbolicError, SymbolicErrorKind};
use symbolic::namedrw::{NamedRead, NamedWrite, Stream};
use symbolic::parsearg::{source_stage, target_stage, Action, ArgScanner, Args, OptConfig, IR};

/// Runs the resolver over `args`, binding each requested file to a stream
/// that holds its path, and records every action asked for.
fn drive(args: &[&str]) -> (Vec<Action>, Result<Args<String, String>, SymbolicError>) {
    let mut actions = Vec::new();
    let tokens: Vec<String> = args.iter().map(|a| a.to_string()).collect();
    let mut scanner = match ArgScanner::new(tokens) {
        Ok(s) => s,
        Err(e) => return (actions, Err(e)),
    };
    let mut input: NamedRead<String> = NamedRead::stdin();
    let mut output: NamedWrite<String> = NamedWrite::stdout();
    for _ in 0..100 {
        let action = scanner.step();
        actions.push(match &action {
            Action::Continue => Action::Continue,
            Action::OpenInput(p) => Action::OpenInput(p.clone()),
            Action::OpenOutput(p) => Action::OpenOutput(p.clone()),
            Action::Fail(k) => Action::Fail(*k),
            Action::Finish => Action::Finish,
        });
        match action {
            Action::Continue => {}
            Action::OpenInput(p) => input = NamedRead::new(&p, p.clone()),
            Action::OpenOutput(p) => output = NamedWrite::new(&p, p.clone()),
            Action::Fail(k) => return (actions, Err(SymbolicError::from(k))),
            Action::Finish => {
                return (actions, Ok(Args::new(scanner.from(), scanner.to(), input, output)))
            }
        }
    }
    panic!("the resolver did not stop");
}

fn kind_of(args: &[&str]) -> SymbolicErrorKind {
    match drive(args).1 {
        Ok(_) => panic!("expected a failure"),
        Err(e) => e.kind(),
    }
}

fn resolved(args: &[&str]) -> Args<String, String> {
    match drive(args).1 {
        Ok(a) => a,
        Err(e) => panic!("unexpected failure {:?}", e),
    }
}

#[test]
fn ordered_stage_pairs_resolve() {
    let froms = [("src", IR::Src), ("tokens", IR::TokenStream), ("ast", IR::AST), ("bytecode", IR::Bytecode)];
    let tos = [("tokens", IR::TokenStream), ("ast", IR::AST), ("bytecode", IR::Bytecode)];
    for (fw, f) in froms.iter() {
        for (tw, t) in tos.iter() {
            let args = ["prog", "--from", fw, "--to", tw];
            if f.rank() <= t.rank() {
                let a = resolved(&args);
                assert_eq!(a.from, *f);
                assert_eq!(a.to, *t);
            } else {
                assert_eq!(kind_of(&args), SymbolicErrorKind::ParseargInvalidOption);
            }
        }
        let a = resolved(&["prog", "--from", fw]);
        assert_eq!(a.from, *f);
        assert_eq!(a.to, IR::Output);
    }
}

#[test]
fn later_stage_before_earlier_fails() {
    assert_eq!(kind_of(&["prog", "--from", "bytecode", "--to", "tokens"]), SymbolicErrorKind::ParseargInvalidOption);
    assert_eq!(kind_of(&["prog", "--to", "ast", "--from", "bytecode"]), SymbolicErrorKind::ParseargInvalidOption);
}

#[test]
fn source_and_src_are_the_same() {
    let a = resolved(&["prog", "--from", "source"]);
    let b = resolved(&["prog", "--from", "src"]);
    assert_eq!(a.from, IR::Src);
    assert_eq!(b.from, IR::Src);
    assert_eq!(source_stage("source"), Some(IR::Src));
    assert_eq!(source_stage("src"), Some(IR::Src));
}

#[test]
fn to_source_is_refused() {
    assert_eq!(kind_of(&["prog", "--to", "source"]), SymbolicErrorKind::ParseargInvalidOption);
    assert_eq!(kind_of(&["prog", "--from", "ast", "--to", "source", "in.sym"]), SymbolicErrorKind::ParseargInvalidOption);
    assert_eq!(kind_of(&["prog", "--to", "src"]), SymbolicErrorKind::ParseargInvalidOption);
    assert_eq!(target_stage("source"), None);
}

#[test]
fn no_files_bind_standard_streams() {
    let (actions, r) = drive(&["prog", "--to", "ast"]);
    let a = r.unwrap();
    assert_eq!(actions, vec![Action::Continue, Action::Finish]);
    assert!(a.input.is_standard());
    assert!(a.output.is_standard());
    assert_eq!(a.input.name, "-");
    assert_eq!(a.output.name, "-");
    let a = resolved(&["prog"]);
    assert_eq!(a.from, IR::Src);
    assert_eq!(a.to, IR::Output);
    assert!(a.input.is_standard() && a.output.is_standard());
    assert!(!a.optimize_config.constant_fold);
    assert!(!a.optimize_config.remove_dead_code);
}

#[test]
fn three_files_are_too_many() {
    let (actions, r) = drive(&["prog", "a.sym", "b.out", "c.extra"]);
    assert_eq!(r.unwrap_err().kind(), SymbolicErrorKind::ParseargTooManyFiles);
    assert_eq!(
        actions,
        vec![
            Action::OpenInput("a.sym".to_string()),
            Action::OpenOutput("b.out".to_string()),
            Action::Fail(SymbolicErrorKind::ParseargTooManyFiles),
        ]
    );
    assert_eq!(
        kind_of(&["prog", "--from", "ast", "a.sym", "--to", "bytecode", "b.out", "c.extra", "d"]),
        SymbolicErrorKind::ParseargTooManyFiles
    );
    assert_eq!(
        kind_of(&["prog", "--from", "bytecode", "a", "b", "--to", "tokens", "c"]),
        SymbolicErrorKind::ParseargTooManyFiles
    );
}

#[test]
fn later_option_overwrites_earlier() {
    assert_eq!(resolved(&["prog", "--from", "tokens", "--from", "ast"]).from, IR::AST);
    assert_eq!(resolved(&["prog", "--to", "tokens", "--to", "bytecode"]).to, IR::Bytecode);
    assert_eq!(resolved(&["prog", "--from", "bytecode", "--to", "tokens", "--to", "bytecode"]).to, IR::Bytecode);
}

#[test]
fn missing_input_is_not_found() {
    let (actions, _) = drive(&["prog", "missing.sym", "--to", "nonsense"]);
    assert_eq!(actions[0], Action::OpenInput("missing.sym".to_string()));
    let e = SymbolicError::from_io(IoCategory::NotFound, "No such file or directory".to_string());
    assert_eq!(e.kind(), SymbolicErrorKind::FileNotFound);
    assert_ne!(e.kind(), SymbolicErrorKind::ParseargInvalidOption);
    assert_eq!(e.description, Some("No such file or directory".to_string()));
}

#[test]
fn full_scenario_with_files() {
    let (actions, r) = drive(&["prog", "--from", "ast", "--to", "bytecode", "in.sym", "-"]);
    let a = r.unwrap();
    assert_eq!(a.from, IR::AST);
    assert_eq!(a.to, IR::Bytecode);
    assert_eq!(a.input.name, "in.sym");
    assert!(matches!(a.input.stream, Stream::File(ref p) if p == "in.sym"));
    assert_eq!(a.output.name, "-");
    assert!(a.output.is_standard());
    assert_eq!(
        actions,
        vec![
            Action::Continue,
            Action::Continue,
            Action::OpenInput("in.sym".to_string()),
            Action::Continue,
            Action::Finish,
        ]
    );
}

#[test]
fn nonsense_target_is_invalid() {
    assert_eq!(kind_of(&["prog", "--to", "nonsense"]), SymbolicErrorKind::ParseargInvalidOption);
}

#[test]
fn empty_argument_list_is_invalid() {
    let e = ArgScanner::new(Vec::new()).err().unwrap();
    assert_eq!(e.kind(), SymbolicErrorKind::ParseargInvalidOption);
    assert_eq!(e.description, None);
}

#[test]
fn option_without_value_is_invalid() {
    assert_eq!(kind_of(&["prog", "--from"]), SymbolicErrorKind::ParseargInvalidOption);
    assert_eq!(kind_of(&["prog", "in.sym", "--to"]), SymbolicErrorKind::ParseargInvalidOption);
    assert_eq!(kind_of(&["prog", "--from", "output"]), SymbolicErrorKind::ParseargInvalidOption);
}

#[test]
fn output_file_is_opened_for_writing() {
    let (actions, r) = drive(&["prog", "-", "out.bin"]);
    let a = r.unwrap();
    assert!(a.input.is_standard());
    assert_eq!(a.output.name, "out.bin");
    assert!(!a.output.is_standard());
    assert_eq!(actions, vec![Action::Continue, Action::OpenOutput("out.bin".to_string()), Action::Finish]);
}

#[test]
fn failure_repeats() {
    let mut s = ArgScanner::new(vec!["prog".to_string(), "--to".to_string(), "x".to_string()]).ok().unwrap();
    assert_eq!(s.step(), Action::Fail(SymbolicErrorKind::ParseargInvalidOption));
    assert_eq!(s.step(), Action::Fail(SymbolicErrorKind::ParseargInvalidOption));
}

#[test]
fn io_categories_map_one_to_one() {
    assert_eq!(SymbolicErrorKind::from(IoCategory::NotFound), SymbolicErrorKind::FileNotFound);
    assert_eq!(SymbolicErrorKind::from(IoCategory::PermissionDenied), SymbolicErrorKind::PermissionDenied);
    assert_eq!(SymbolicErrorKind::from(IoCategory::Interrupted), SymbolicErrorKind::OperationInterrupted);
    assert_eq!(SymbolicErrorKind::from(IoCategory::Unsupported), SymbolicErrorKind::OperationUnsupported);
    assert_eq!(SymbolicErrorKind::from(IoCategory::UnexpectedEof), SymbolicErrorKind::UnexceptedEOF);
    assert_eq!(SymbolicErrorKind::from(IoCategory::Other), SymbolicErrorKind::Unknown);
}

#[test]
fn kind_alone_has_no_description() {
    let e = SymbolicError::from(SymbolicErrorKind::ParseargTooManyFiles);
    assert_eq!(e.kind(), SymbolicErrorKind::ParseargTooManyFiles);
    assert_eq!(e.description, None);
}

#[test]
fn stages_are_ordered_by_rank() {
    assert_eq!(IR::Src.rank(), 0);
    assert_eq!(IR::TokenStream.rank(), 1);
    assert_eq!(IR::AST.rank(), 2);
    assert_eq!(IR::Bytecode.rank(), 3);
    assert_eq!(IR::Output.rank(), 4);
    assert!(IR::Src < IR::TokenStream);
    assert!(IR::AST < IR::Bytecode);
    assert!(IR::Output > IR::Bytecode);
    assert!(IR::AST <= IR::AST);
    assert_eq!(IR::Bytecode.partial_cmp(&IR::TokenStream), Some(std::cmp::Ordering::Greater));
}

#[test]
fn stage_words() {
    assert_eq!(source_stage("tokens"), Some(IR::TokenStream));
    assert_eq!(source_stage("ast"), Some(IR::AST));
    assert_eq!(source_stage("bytecode"), Some(IR::Bytecode));
    assert_eq!(source_stage("Src"), None);
    assert_eq!(target_stage("tokens"), Some(IR::TokenStream));
    assert_eq!(target_stage("ast"), Some(IR::AST));
    assert_eq!(target_stage("bytecode"), Some(IR::Bytecode));
    assert_eq!(target_stage("output"), None);
    assert_eq!(target_stage(""), None);
}

#[test]
fn optimizations_default_off() {
    let o = OptConfig::default();
    assert_eq!(o, OptConfig { constant_fold: false, remove_dead_code: false });
    assert_eq!(OptConfig::new(), o);
}
