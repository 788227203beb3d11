//! What a run says before each of its commands.

use crate::pipeline::{Plan, Stage, Step};
use vstd::prelude::*;
use vstd::string::*;

verus! {

/// The directories of a step, each as the text by which it is shown.
#[derive(Clone, Debug, PartialEq, Eq)]
pub struct Shown {
    /// The workspace of the step.
    pub workspace: String,
    /// The directory of the project inside the workspace.
    pub project_dir: String,
    /// The clone of the library under test.
    pub test_path: String,
}

/// What a `Shown` holds, as plain text.
pub struct ShownView {
    pub workspace: Seq<char>,
    pub project_dir: Seq<char>,
    pub test_path: Seq<char>,
}

impl View for Shown {
    type V = ShownView;

    open spec fn view(&self) -> ShownView {
        ShownView {
            workspace: self.workspace@,
            project_dir: self.project_dir@,
            test_path: self.test_path@,
        }
    }
}

impl Plan {
    /// The lines that announce the command of `stage`, in order. A clone
    /// names the workspace; a pre-action is quoted as it is configured; the
    /// builds name the directory of the project; the substitution names the
    /// dependency, the project and the clone of the library under test, and
    /// in a second line the package where one is selected. Where `stage` has
    /// no command there is nothing to announce.
    pub open spec fn spec_announcement(&self, stage: Stage, shown: ShownView) -> Seq<Seq<char>> {
        match stage {
            Stage::Target => seq!["[-] Cloning into "@ + shown.workspace],
            Stage::Project { index, step } => {
                if index >= self.instructions@.len() {
                    Seq::empty()
                } else {
                    let project = self.instructions@[index as int]@;
                    match step {
                        Step::Clone => seq!["[-] Cloning into "@ + shown.workspace],
                        Step::PreBaseline | Step::PreCheck => {
                            if self.spec_has_pre_action(index as int) {
                                seq!["[-] running extra cmd: "@ + project.before_action->0]
                            } else {
                                Seq::empty()
                            }
                        },
                        Step::Baseline => seq!["[-] Evaluating "@ + shown.project_dir],
                        Step::Substitute => {
                            let first = "[-] Modified dep "@ + self.test@.name + " in "@
                                + shown.project_dir + " with "@ + shown.test_path;
                            match project.package {
                                Some(package) => seq![first, "[-] with package: "@ + package],
                                None => seq![first],
                            }
                        },
                        Step::Check => seq!["[-] Checking Modified "@ + shown.project_dir],
                    }
                }
            },
            Stage::Completed | Stage::Aborted => Seq::empty(),
        }
    }

    /// The lines that announce the command of `stage`, in order.
    pub fn announcement(&self, stage: Stage, shown: &Shown) -> (lines: Vec<String>)
        ensures
            lines.deep_view() == self.spec_announcement(stage, shown@),
            lines.len() == 0 <==> self.spec_command(stage) is None,
    {
        let mut lines: Vec<String> = Vec::new();
        assert(lines.deep_view() == Seq::<Seq<char>>::empty());
        match stage {
            Stage::Target => {
                let line = String::from_str("[-] Cloning into ").concat(shown.workspace.as_str());
                lines.push(line);
                assert(lines.deep_view() == seq![line@]);
            },
            Stage::Project { index, step } => {
                if index < self.instructions.len() {
                    let project = &self.instructions[index];
                    match step {
                        Step::Clone => {
                            let line = String::from_str("[-] Cloning into ").concat(
                                shown.workspace.as_str(),
                            );
                            lines.push(line);
                            assert(lines.deep_view() == seq![line@]);
                        },
                        Step::PreBaseline | Step::PreCheck => {
                            if self.has_pre_action(index) {
                                match &project.before_action {
                                    Some(text) => {
                                        let line = String::from_str(
                                            "[-] running extra cmd: ",
                                        ).concat(text.as_str());
                                        lines.push(line);
                                        assert(lines.deep_view() == seq![line@]);
                                    },
                                    None => {},
                                }
                            }
                        },
                        Step::Baseline => {
                            let line = String::from_str("[-] Evaluating ").concat(
                                shown.project_dir.as_str(),
                            );
                            lines.push(line);
                            assert(lines.deep_view() == seq![line@]);
                        },
                        Step::Substitute => {
                            let first = String::from_str("[-] Modified dep ").concat(
                                self.test.name.as_str(),
                            ).concat(" in ").concat(shown.project_dir.as_str()).concat(
                                " with ",
                            ).concat(shown.test_path.as_str());
                            lines.push(first);
                            match &project.package {
                                Some(package) => {
                                    let second = String::from_str("[-] with package: ").concat(
                                        package.as_str(),
                                    );
                                    lines.push(second);
                                    assert(lines.deep_view() == seq![first@, second@]);
                                },
                                None => {
                                    assert(lines.deep_view() == seq![first@]);
                                },
                            }
                        },
                        Step::Check => {
                            let line = String::from_str("[-] Checking Modified ").concat(
                                shown.project_dir.as_str(),
                            );
                            lines.push(line);
                            assert(lines.deep_view() == seq![line@]);
                        },
                    }
                }
            },
            Stage::Completed | Stage::Aborted => {},
        }
        lines
    }
}

} // verus!
