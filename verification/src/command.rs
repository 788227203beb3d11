//! The commands of a run: which program is started, with which arguments,
//! and in which directory of the workspace.

use crate::model::Cmd;
use crate::words::{spec_split_whitespace, split_whitespace};
use vstd::prelude::*;
use vstd::string::*;

verus! {

/// One command to run in a workspace.
#[derive(Clone, Debug, PartialEq, Eq)]
pub struct Invocation {
    /// The program, looked up on the search path.
    pub program: String,
    /// Its arguments, in order.
    pub args: Vec<String>,
    /// The directory inside the workspace in which it runs; without one it
    /// runs in the workspace itself.
    pub subdir: Option<String>,
}

/// What an `Invocation` holds, as plain text.
pub struct InvocationView {
    pub program: Seq<char>,
    pub args: Seq<Seq<char>>,
    pub subdir: Option<Seq<char>>,
}

impl View for Invocation {
    type V = InvocationView;

    open spec fn view(&self) -> InvocationView {
        InvocationView {
            program: self.program@,
            args: self.args.deep_view(),
            subdir: self.subdir.deep_view(),
        }
    }
}

impl DeepView for Invocation {
    type V = InvocationView;

    open spec fn deep_view(&self) -> InvocationView {
        self@
    }
}

/// `git clone <url>`, with `--branch <rev>` where a revision is given, run in
/// the workspace itself.
pub open spec fn spec_git_clone(url: Seq<char>, rev: Option<Seq<char>>) -> InvocationView {
    InvocationView {
        program: "git"@,
        args: match rev {
            Some(rev) => seq!["clone"@, url, "--branch"@, rev],
            None => seq!["clone"@, url],
        },
        subdir: None,
    }
}

/// `cargo <action>` in the project's directory.
pub open spec fn spec_cargo_action(action: Cmd, project: Seq<char>) -> InvocationView {
    InvocationView { program: "cargo"@, args: seq![action.spec_name()], subdir: Some(project) }
}

/// `cargo add <dependency> --path <path>`, with `-p <package>` where a
/// package is selected, in the project's directory.
pub open spec fn spec_cargo_add(
    dependency: Seq<char>,
    path: Seq<char>,
    package: Option<Seq<char>>,
    project: Seq<char>,
) -> InvocationView {
    InvocationView {
        program: "cargo"@,
        args: match package {
            Some(package) => seq!["add"@, dependency, "--path"@, path, "-p"@, package],
            None => seq!["add"@, dependency, "--path"@, path],
        },
        subdir: Some(project),
    }
}

/// The command that a pre-action's text stands for: its first word is the
/// program, the other words are the arguments, and it runs in the project's
/// directory. A text without a word, such as the empty text, stands for no
/// command.
pub open spec fn spec_pre_action(text: Seq<char>, project: Seq<char>) -> Option<InvocationView> {
    let words = spec_split_whitespace(text);
    if words.len() == 0 {
        None
    } else {
        Some(InvocationView { program: words[0], args: words.skip(1), subdir: Some(project) })
    }
}

/// The command that clones `url`, at `rev` where one is given.
pub fn git_clone(url: &str, rev: Option<&str>) -> (invocation: Invocation)
    ensures
        invocation@ == spec_git_clone(url@, rev.deep_view()),
{
    let mut args: Vec<String> = Vec::new();
    args.push(String::from_str("clone"));
    args.push(String::from_str(url));
    match rev {
        Some(rev) => {
            args.push(String::from_str("--branch"));
            args.push(String::from_str(rev));
            assert(args.deep_view() == seq!["clone"@, url@, "--branch"@, rev@]);
        },
        None => {
            assert(args.deep_view() == seq!["clone"@, url@]);
        },
    }
    Invocation { program: String::from_str("git"), args, subdir: None }
}

/// The command that runs the build action `action` on the project in the
/// directory `project`.
pub fn cargo_action(action: Cmd, project: &str) -> (invocation: Invocation)
    ensures
        invocation@ == spec_cargo_action(action, project@),
{
    let mut args: Vec<String> = Vec::new();
    args.push(action.to_string());
    assert(args.deep_view() == seq![action.spec_name()]);
    Invocation {
        program: String::from_str("cargo"),
        args,
        subdir: Some(String::from_str(project)),
    }
}

/// The command that makes the project in the directory `project` depend on
/// `dependency` as it is found at `path`, in the member `package` where one
/// is selected.
pub fn cargo_add(dependency: &str, path: &str, package: Option<&str>, project: &str) -> (invocation:
    Invocation)
    ensures
        invocation@ == spec_cargo_add(dependency@, path@, package.deep_view(), project@),
{
    let mut args: Vec<String> = Vec::new();
    args.push(String::from_str("add"));
    args.push(String::from_str(dependency));
    args.push(String::from_str("--path"));
    args.push(String::from_str(path));
    match package {
        Some(package) => {
            args.push(String::from_str("-p"));
            args.push(String::from_str(package));
            assert(args.deep_view() == seq![
                "add"@,
                dependency@,
                "--path"@,
                path@,
                "-p"@,
                package@,
            ]);
        },
        None => {
            assert(args.deep_view() == seq!["add"@, dependency@, "--path"@, path@]);
        },
    }
    Invocation {
        program: String::from_str("cargo"),
        args,
        subdir: Some(String::from_str(project)),
    }
}

/// The command that the pre-action `text` stands for, to run in the directory
/// `project`; `None` where the text holds no word.
pub fn pre_action(text: &str, project: &str) -> (invocation: Option<Invocation>)
    ensures
        invocation.deep_view() == spec_pre_action(text@, project@),
{
    let mut words = split_whitespace(text);
    if words.len() == 0 {
        None
    } else {
        let ghost all = words.deep_view();
        let program = words.remove(0);
        assert(words.deep_view() == all.skip(1));
        assert(program@ == all[0]);
        Some(Invocation { program, args: words, subdir: Some(String::from_str(project)) })
    }
}

} // verus!
