use compat_runner::command::{cargo_action, cargo_add, git_clone, pre_action, Invocation};
use compat_runner::model::Cmd;

fn strings(words: &[&str]) -> Vec<String> {
    words.iter().map(|word| word.to_string()).collect()
}

#[test]
fn clone_of_default_branch() {
    assert_eq!(
        git_clone("https://example.org/proj.git", None),
        Invocation {
            program: "git".to_string(),
            args: strings(&["clone", "https://example.org/proj.git"]),
            subdir: None,
        }
    );
}

#[test]
fn clone_of_revision() {
    assert_eq!(
        git_clone("https://example.org/proj.git", Some("v1.2")),
        Invocation {
            program: "git".to_string(),
            args: strings(&["clone", "https://example.org/proj.git", "--branch", "v1.2"]),
            subdir: None,
        }
    );
}

#[test]
fn build_actions() {
    assert_eq!(
        cargo_action(Cmd::Check, "proj"),
        Invocation {
            program: "cargo".to_string(),
            args: strings(&["check"]),
            subdir: Some("proj".to_string()),
        }
    );
    assert_eq!(
        cargo_action(Cmd::Test, "proj"),
        Invocation {
            program: "cargo".to_string(),
            args: strings(&["test"]),
            subdir: Some("proj".to_string()),
        }
    );
}

#[test]
fn add_without_package() {
    assert_eq!(
        cargo_add("lib", "/tmp/ws/lib", None, "proj"),
        Invocation {
            program: "cargo".to_string(),
            args: strings(&["add", "lib", "--path", "/tmp/ws/lib"]),
            subdir: Some("proj".to_string()),
        }
    );
}

#[test]
fn add_with_package() {
    assert_eq!(
        cargo_add("lib", "/tmp/ws/lib", Some("member"), "proj"),
        Invocation {
            program: "cargo".to_string(),
            args: strings(&["add", "lib", "--path", "/tmp/ws/lib", "-p", "member"]),
            subdir: Some("proj".to_string()),
        }
    );
}

#[test]
fn pre_action_of_empty_text_is_no_command() {
    assert_eq!(pre_action("", "proj"), None);
}

#[test]
fn pre_action_of_blank_text_is_no_command() {
    assert_eq!(pre_action("  \t ", "proj"), None);
}

#[test]
fn pre_action_of_one_word() {
    assert_eq!(
        pre_action("make", "proj"),
        Some(Invocation {
            program: "make".to_string(),
            args: Vec::new(),
            subdir: Some("proj".to_string()),
        })
    );
}

#[test]
fn pre_action_of_several_words() {
    assert_eq!(
        pre_action("  cargo update  -p syn ", "proj"),
        Some(Invocation {
            program: "cargo".to_string(),
            args: strings(&["update", "-p", "syn"]),
            subdir: Some("proj".to_string()),
        })
    );
}
