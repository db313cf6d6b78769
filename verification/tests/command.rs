use cargo_lints::command::{conclude, select, Operation, Run, Subcommand};
use cargo_lints::error::LintsError;

fn strings(names: &[&str]) -> Vec<String> {
    names.iter().map(|name| name.to_string()).collect()
}

#[test]
fn fmt_asks_for_formatting() {
    assert!(matches!(select(Subcommand::Fmt), Ok(Operation::Format)));
}

#[test]
fn clippy_asks_for_the_linter_with_the_other_words() {
    match select(Subcommand::External(strings(&["clippy", "check", "--workspace"]))) {
        Ok(Operation::RunLinter(args)) => assert_eq!(args, strings(&["check", "--workspace"])),
        other => panic!("unexpected {:?}", other),
    }
}

#[test]
fn clippy_alone_asks_for_the_linter_without_arguments() {
    match select(Subcommand::External(strings(&["clippy"]))) {
        Ok(Operation::RunLinter(args)) => assert!(args.is_empty()),
        other => panic!("unexpected {:?}", other),
    }
}

#[test]
fn another_name_is_an_unknown_subcommand() {
    match select(Subcommand::External(strings(&["build", "clippy"]))) {
        Err(LintsError::UnknownSubcommand(name)) => assert_eq!(name, "build"),
        other => panic!("unexpected {:?}", other),
    }
}

#[test]
fn name_is_matched_exactly() {
    for name in ["Clippy", "clippy ", "clipp", "clippyy", ""] {
        match select(Subcommand::External(strings(&[name, "x"]))) {
            Err(LintsError::UnknownSubcommand(got)) => assert_eq!(got, name),
            other => panic!("unexpected {:?}", other),
        }
    }
}

#[test]
fn no_word_is_an_unknown_subcommand_without_a_name() {
    match select(Subcommand::External(Vec::new())) {
        Err(LintsError::UnknownSubcommand(name)) => assert_eq!(name, ""),
        other => panic!("unexpected {:?}", other),
    }
}

#[test]
fn failed_start_is_a_spawn_error() {
    assert!(matches!(conclude(Run::SpawnFailed), Err(LintsError::Spawn)));
}

#[test]
fn failed_wait_is_a_wait_error() {
    assert!(matches!(conclude(Run::WaitFailed), Err(LintsError::Wait)));
}

#[test]
fn exit_code_of_the_linter_is_no_error() {
    assert!(matches!(conclude(Run::Exited(Some(0))), Ok(())));
    assert!(matches!(conclude(Run::Exited(Some(101))), Ok(())));
    assert!(matches!(conclude(Run::Exited(None)), Ok(())));
}
