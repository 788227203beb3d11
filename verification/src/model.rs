//! The data that describes a compatibility run: the library under test, the
//! projects that depend on it, and the policy of the run.

use vstd::prelude::*;
use vstd::string::*;

verus! {

/// The top-level build action that is run on a dependent project before the
/// library under test is substituted into it.
#[derive(Clone, Copy, Debug, PartialEq, Eq, Structural)]
pub enum Cmd {
    Check,
    Test,
}

impl Cmd {
    /// The word by which the build tool knows this action.
    pub open spec fn spec_name(self) -> Seq<char> {
        match self {
            Cmd::Check => "check"@,
            Cmd::Test => "test"@,
        }
    }

    /// The action's name, as it is handed to the build tool.
    pub fn to_string(&self) -> (name: String)
        ensures
            name@ == self.spec_name(),
    {
        match self {
            Cmd::Check => String::from_str("check"),
            Cmd::Test => String::from_str("test"),
        }
    }
}

impl Default for Cmd {
    /// A run that is not told otherwise checks.
    fn default() -> (cmd: Cmd)
        ensures
            cmd == Cmd::Check,
    {
        Cmd::Check
    }
}

/// The library under test: where it is cloned from, at which revision, and
/// the name of the directory that cloning creates. The same name is the one
/// under which dependent projects depend on it.
#[derive(Clone, Debug, PartialEq, Eq)]
pub struct Test {
    pub url: String,
    pub name: String,
    pub rev: String,
}

/// What a `Test` holds, as plain text.
pub struct TestView {
    pub url: Seq<char>,
    pub name: Seq<char>,
    pub rev: Seq<char>,
}

impl View for Test {
    type V = TestView;

    open spec fn view(&self) -> TestView {
        TestView { url: self.url@, name: self.name@, rev: self.rev@ }
    }
}

impl DeepView for Test {
    type V = TestView;

    open spec fn deep_view(&self) -> TestView {
        self@
    }
}

impl Test {
    pub fn new(url: &str, name: &str, rev: &str) -> (test: Test)
        ensures
            test@ == (TestView { url: url@, name: name@, rev: rev@ }),
    {
        Test {
            url: String::from_str(url),
            name: String::from_str(name),
            rev: String::from_str(rev),
        }
    }
}

/// One dependent project to validate.
///
/// Without `rev` the default branch is cloned. `package` selects the member
/// of a multi-package workspace that receives the dependency. `before_action`
/// is a command line that is run in the project before the baseline build and
/// again after the substitution.
#[derive(Clone, Debug, PartialEq, Eq)]
pub struct Instruction {
    pub url: String,
    pub name: String,
    pub package: Option<String>,
    pub rev: Option<String>,
    pub before_action: Option<String>,
}

/// What an `Instruction` holds, as plain text.
pub struct InstructionView {
    pub url: Seq<char>,
    pub name: Seq<char>,
    pub package: Option<Seq<char>>,
    pub rev: Option<Seq<char>>,
    pub before_action: Option<Seq<char>>,
}

impl View for Instruction {
    type V = InstructionView;

    open spec fn view(&self) -> InstructionView {
        InstructionView {
            url: self.url@,
            name: self.name@,
            package: self.package.deep_view(),
            rev: self.rev.deep_view(),
            before_action: self.before_action.deep_view(),
        }
    }
}

impl DeepView for Instruction {
    type V = InstructionView;

    open spec fn deep_view(&self) -> InstructionView {
        self@
    }
}

impl Instruction {
    /// An instruction for the default branch of `url`, with no package
    /// selector and no pre-action.
    pub fn new(url: &str, name: &str) -> (instruction: Instruction)
        ensures
            instruction@ == (InstructionView {
                url: url@,
                name: name@,
                package: None,
                rev: None,
                before_action: None,
            }),
    {
        Instruction {
            url: String::from_str(url),
            name: String::from_str(name),
            package: None,
            rev: None,
            before_action: None,
        }
    }
}

/// A run as it is configured: the library under test and the dependent
/// projects, in the order in which they are processed.
#[derive(Clone, Debug, PartialEq, Eq)]
pub struct Config {
    pub test: Test,
    pub instructions: Vec<Instruction>,
}

/// What a `Config` holds, as plain text.
pub struct ConfigView {
    pub test: TestView,
    pub instructions: Seq<InstructionView>,
}

impl View for Config {
    type V = ConfigView;

    open spec fn view(&self) -> ConfigView {
        ConfigView { test: self.test@, instructions: self.instructions.deep_view() }
    }
}

/// The policy of a run. It is fixed before the run starts.
#[derive(Clone, Debug, PartialEq, Eq)]
pub struct RunOptions {
    /// The directory in which workspaces are created; without it they are
    /// created in the system's area for temporary files.
    pub root_dir: Option<String>,
    /// Whether the run goes on with the next project after a step has
    /// failed, rather than end.
    pub continue_on_error: bool,
    /// Whether the output of a command is forwarded while it runs, rather
    /// than kept and shown only when the command fails.
    pub stream_stdout: bool,
}

impl RunOptions {
    /// The policy that the command-line switches ask for: `no_exit_on_error`
    /// lets the run go on after a failure, `no_stdout` keeps the commands'
    /// output back.
    pub fn from_flags(
        root_dir: Option<String>,
        no_exit_on_error: bool,
        no_stdout: bool,
    ) -> (options: RunOptions)
        ensures
            options.root_dir == root_dir,
            options.continue_on_error == no_exit_on_error,
            options.stream_stdout == !no_stdout,
    {
        RunOptions { root_dir, continue_on_error: no_exit_on_error, stream_stdout: !no_stdout }
    }
}

impl Default for RunOptions {
    /// Workspaces in the system's temporary area, stop at the first failure,
    /// forward output while a command runs.
    fn default() -> (options: RunOptions)
        ensures
            options.root_dir is None,
            !options.continue_on_error,
            options.stream_stdout,
    {
        RunOptions { root_dir: None, continue_on_error: false, stream_stdout: true }
    }
}

} // verus!
