use compat_runner::model::{Cmd, Config, Instruction, RunOptions, Test};

#[test]
fn cmd_names() {
    assert_eq!(Cmd::Check.to_string(), "check");
    assert_eq!(Cmd::Test.to_string(), "test");
}

#[test]
fn cmd_defaults_to_check() {
    assert_eq!(Cmd::default(), Cmd::Check);
}

#[test]
fn test_target_holds_its_fields() {
    let target = Test::new("https://example.org/lib.git", "lib", "main");
    assert_eq!(target.url, "https://example.org/lib.git");
    assert_eq!(target.name, "lib");
    assert_eq!(target.rev, "main");
}

#[test]
fn new_instruction_has_no_options() {
    let instruction = Instruction::new("https://example.org/proj.git", "proj");
    assert_eq!(
        instruction,
        Instruction {
            url: "https://example.org/proj.git".to_string(),
            name: "proj".to_string(),
            package: None,
            rev: None,
            before_action: None,
        }
    );
}

#[test]
fn default_options_stop_at_first_failure_and_stream() {
    let options = RunOptions::default();
    assert_eq!(options.root_dir, None);
    assert!(!options.continue_on_error);
    assert!(options.stream_stdout);
}

#[test]
fn options_from_flags() {
    let options = RunOptions::from_flags(Some("/work".to_string()), true, true);
    assert_eq!(options.root_dir, Some("/work".to_string()));
    assert!(options.continue_on_error);
    assert!(!options.stream_stdout);

    let options = RunOptions::from_flags(None, false, false);
    assert_eq!(options, RunOptions::default());

    let options = RunOptions::from_flags(None, true, false);
    assert!(options.continue_on_error);
    assert!(options.stream_stdout);

    let options = RunOptions::from_flags(None, false, true);
    assert!(!options.continue_on_error);
    assert!(!options.stream_stdout);
}

#[test]
fn config_keeps_the_order_of_instructions() {
    let config = Config {
        test: Test::new("A", "lib", "main"),
        instructions: vec![Instruction::new("B", "one"), Instruction::new("C", "two")],
    };
    assert_eq!(config.instructions[0].name, "one");
    assert_eq!(config.instructions[1].name, "two");
}
