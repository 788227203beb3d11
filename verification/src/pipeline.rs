//! The run as a state machine: which command comes next, and where the run
//! goes once that command has succeeded or failed.
//!
//! The library under test is cloned first. Every dependent project then goes
//! through its steps in order: clone, pre-action, baseline build,
//! substitution of the dependency, pre-action again, and the check of the
//! substituted build. Where a step fails, the policy of the run decides: the
//! whole run ends, or the rest of that project is skipped and the run goes on
//! with the next project. The machine itself starts no process: the caller
//! runs the command of the current stage and reports whether it succeeded.

use crate::command::{
    cargo_action,
    cargo_add,
    git_clone,
    pre_action,
    spec_cargo_action,
    spec_cargo_add,
    spec_git_clone,
    spec_pre_action,
    Invocation,
    InvocationView,
};
use crate::model::{Cmd, Config, Instruction, InstructionView, RunOptions, Test};
use vstd::prelude::*;
use vstd::string::*;

verus! {

/// The steps that one dependent project goes through, in this order.
#[derive(Clone, Copy, Debug, PartialEq, Eq, Structural)]
pub enum Step {
    /// The project is cloned into a workspace of its own.
    Clone,
    /// The pre-action, before the baseline build.
    PreBaseline,
    /// The build action that the run was started with.
    Baseline,
    /// The library under test replaces the published dependency.
    Substitute,
    /// The pre-action again, after the substitution.
    PreCheck,
    /// The check of the project as substituted.
    Check,
}

impl Step {
    /// Whether this step runs the project's pre-action.
    pub open spec fn spec_is_pre_action(self) -> bool {
        self == Step::PreBaseline || self == Step::PreCheck
    }

    /// The place of this step among the steps of a project, from 0.
    pub open spec fn spec_ordinal(self) -> int {
        match self {
            Step::Clone => 0,
            Step::PreBaseline => 1,
            Step::Baseline => 2,
            Step::Substitute => 3,
            Step::PreCheck => 4,
            Step::Check => 5,
        }
    }

    /// Whether this step runs the project's pre-action.
    pub fn is_pre_action(self) -> (b: bool)
        ensures
            b == self.spec_is_pre_action(),
    {
        match self {
            Step::PreBaseline | Step::PreCheck => true,
            _ => false,
        }
    }
}

/// Where a run stands.
#[derive(Clone, Copy, Debug, PartialEq, Eq, Structural)]
pub enum Stage {
    /// The library under test is to be cloned.
    Target,
    /// The step `step` of the project at `index` is to be run.
    Project { index: usize, step: Step },
    /// Every project went through its last step.
    Completed,
    /// A step failed and the policy ended the run.
    Aborted,
}

impl Stage {
    /// Whether the run has ended.
    pub open spec fn spec_is_terminal(self) -> bool {
        self == Stage::Completed || self == Stage::Aborted
    }

    /// Whether the command of this stage runs in a workspace of its own,
    /// which is made for it and kept: every clone does, that of the library
    /// under test and that of each project. The other steps of a project
    /// run in the workspace of its clone.
    pub open spec fn spec_opens_workspace(self) -> bool {
        self == Stage::Target || (self matches Stage::Project { step, .. } && step == Step::Clone)
    }

    /// Whether a failure at this stage falls under the error policy. The
    /// clone of the library under test does, and every step of a project but
    /// its pre-action.
    pub open spec fn spec_is_gated(self) -> bool {
        match self {
            Stage::Target => true,
            Stage::Project { step, .. } => !step.spec_is_pre_action(),
            _ => false,
        }
    }

    /// Whether the run has ended.
    pub fn is_terminal(self) -> (b: bool)
        ensures
            b == self.spec_is_terminal(),
    {
        match self {
            Stage::Completed | Stage::Aborted => true,
            _ => false,
        }
    }

    /// Whether the command of this stage runs in a workspace of its own.
    pub fn opens_workspace(self) -> (b: bool)
        ensures
            b == self.spec_opens_workspace(),
    {
        match self {
            Stage::Target => true,
            Stage::Project { step: Step::Clone, .. } => true,
            _ => false,
        }
    }

    /// Whether a failure at this stage falls under the error policy.
    pub fn is_gated(self) -> (b: bool)
        ensures
            b == self.spec_is_gated(),
    {
        match self {
            Stage::Target => true,
            Stage::Project { step, .. } => !step.is_pre_action(),
            _ => false,
        }
    }
}

/// Everything that decides the commands of a run and their order.
#[derive(Clone, Debug, PartialEq, Eq)]
pub struct Plan {
    /// The library under test.
    pub test: Test,
    /// The dependent projects, in the order in which they are processed.
    pub instructions: Vec<Instruction>,
    /// The build action of the baseline step.
    pub cmd: Cmd,
    /// Whether the run goes on with the next project after a step has
    /// failed, rather than end.
    pub continue_on_error: bool,
    /// The path of the clone of the library under test: the directory that
    /// cloning creates inside the library's workspace.
    pub test_path: String,
}

/// The command that the text of a pre-action stands for, if there is a text
/// and it holds a word.
pub open spec fn spec_pre_action_of(instruction: InstructionView) -> Option<InvocationView> {
    match instruction.before_action {
        Some(text) => spec_pre_action(text, instruction.name),
        None => None,
    }
}

impl Plan {
    /// The plan of a run of `cmd` on the projects of `config` under the
    /// policy `options`, with the clone of the library under test at
    /// `test_path`.
    pub fn new(config: Config, cmd: Cmd, options: &RunOptions, test_path: String) -> (plan: Plan)
        ensures
            plan.test == config.test,
            plan.instructions == config.instructions,
            plan.cmd == cmd,
            plan.continue_on_error == options.continue_on_error,
            plan.test_path == test_path,
    {
        Plan {
            test: config.test,
            instructions: config.instructions,
            cmd,
            continue_on_error: options.continue_on_error,
            test_path,
        }
    }

    /// Whether the project at `index` has a pre-action to run.
    pub open spec fn spec_has_pre_action(&self, index: int) -> bool {
        0 <= index < self.instructions@.len() && spec_pre_action_of(
            self.instructions@[index]@,
        ) is Some
    }

    /// Whether `stage` is one that a run of this plan can stand at: its
    /// project exists, and a pre-action step has a pre-action to run.
    pub open spec fn admits(&self, stage: Stage) -> bool {
        match stage {
            Stage::Project { index, step } => {
                &&& index < self.instructions@.len()
                &&& step.spec_is_pre_action() ==> self.spec_has_pre_action(index as int)
            },
            _ => true,
        }
    }

    /// The stage with which the step `step` of the project at `index` begins:
    /// that step itself, or the step after it where `step` is a pre-action
    /// step and the project has no pre-action to run, or `Completed` where
    /// the plan has no project at `index`.
    pub open spec fn spec_enter(&self, index: int, step: Step) -> Stage {
        if !(0 <= index < self.instructions@.len()) {
            Stage::Completed
        } else if step == Step::PreBaseline && !self.spec_has_pre_action(index) {
            Stage::Project { index: index as usize, step: Step::Baseline }
        } else if step == Step::PreCheck && !self.spec_has_pre_action(index) {
            Stage::Project { index: index as usize, step: Step::Check }
        } else {
            Stage::Project { index: index as usize, step }
        }
    }

    /// The stage that follows `stage` where the run goes on.
    pub open spec fn spec_successor(&self, stage: Stage) -> Stage {
        match stage {
            Stage::Target => self.spec_enter(0, Step::Clone),
            Stage::Project { index, step } => match step {
                Step::Clone => self.spec_enter(index as int, Step::PreBaseline),
                Step::PreBaseline => self.spec_enter(index as int, Step::Baseline),
                Step::Baseline => self.spec_enter(index as int, Step::Substitute),
                Step::Substitute => self.spec_enter(index as int, Step::PreCheck),
                Step::PreCheck => self.spec_enter(index as int, Step::Check),
                Step::Check => self.spec_enter(index + 1, Step::Clone),
            },
            Stage::Completed => Stage::Completed,
            Stage::Aborted => Stage::Aborted,
        }
    }

    /// The stage of the run once the command of `stage` has ended, with
    /// success where `ok` holds. A run that has ended stays where it is. A
    /// failure at a gated stage ends the run, unless the plan says to
    /// continue on errors: then the rest of the project that failed is
    /// skipped and the run goes on with the clone of the next project, or
    /// with that of the first project where the clone of the library under
    /// test failed. In every other case the run goes on to the next stage.
    pub open spec fn spec_advance(&self, stage: Stage, ok: bool) -> Stage {
        if stage.spec_is_terminal() {
            stage
        } else if !ok && stage.spec_is_gated() {
            if !self.continue_on_error {
                Stage::Aborted
            } else {
                match stage {
                    Stage::Project { index, .. } => self.spec_enter(index + 1, Step::Clone),
                    _ => self.spec_successor(stage),
                }
            }
        } else {
            self.spec_successor(stage)
        }
    }

    /// The command to run at `stage`, if there is one.
    pub open spec fn spec_command(&self, stage: Stage) -> Option<InvocationView> {
        match stage {
            Stage::Target => Some(spec_git_clone(self.test@.url, Some(self.test@.rev))),
            Stage::Project { index, step } => {
                if index >= self.instructions@.len() {
                    None
                } else {
                    let project = self.instructions@[index as int]@;
                    match step {
                        Step::Clone => Some(spec_git_clone(project.url, project.rev)),
                        Step::PreBaseline | Step::PreCheck => spec_pre_action_of(project),
                        Step::Baseline => Some(spec_cargo_action(self.cmd, project.name)),
                        Step::Substitute => Some(
                            spec_cargo_add(
                                self.test@.name,
                                self.test_path@,
                                project.package,
                                project.name,
                            ),
                        ),
                        Step::Check => Some(spec_cargo_action(Cmd::Check, project.name)),
                    }
                }
            },
            Stage::Completed | Stage::Aborted => None,
        }
    }

    /// Whether the project at `index` has a pre-action to run.
    pub fn has_pre_action(&self, index: usize) -> (b: bool)
        ensures
            b == self.spec_has_pre_action(index as int),
    {
        if index >= self.instructions.len() {
            false
        } else {
            let project = &self.instructions[index];
            match &project.before_action {
                Some(text) => pre_action(text.as_str(), project.name.as_str()).is_some(),
                None => false,
            }
        }
    }

    /// The stage with which the step `step` of the project at `index` begins.
    fn enter(&self, index: usize, step: Step) -> (stage: Stage)
        ensures
            stage == self.spec_enter(index as int, step),
    {
        if index >= self.instructions.len() {
            Stage::Completed
        } else {
            match step {
                Step::PreBaseline => {
                    if self.has_pre_action(index) {
                        Stage::Project { index, step }
                    } else {
                        Stage::Project { index, step: Step::Baseline }
                    }
                },
                Step::PreCheck => {
                    if self.has_pre_action(index) {
                        Stage::Project { index, step }
                    } else {
                        Stage::Project { index, step: Step::Check }
                    }
                },
                _ => Stage::Project { index, step },
            }
        }
    }

    /// The stage that follows `stage` where the run goes on.
    pub fn successor(&self, stage: Stage) -> (next: Stage)
        ensures
            next == self.spec_successor(stage),
    {
        match stage {
            Stage::Target => self.enter(0, Step::Clone),
            Stage::Project { index, step } => match step {
                Step::Clone => self.enter(index, Step::PreBaseline),
                Step::PreBaseline => self.enter(index, Step::Baseline),
                Step::Baseline => self.enter(index, Step::Substitute),
                Step::Substitute => self.enter(index, Step::PreCheck),
                Step::PreCheck => self.enter(index, Step::Check),
                Step::Check => {
                    if index < self.instructions.len() {
                        self.enter(index + 1, Step::Clone)
                    } else {
                        Stage::Completed
                    }
                },
            },
            Stage::Completed => Stage::Completed,
            Stage::Aborted => Stage::Aborted,
        }
    }

    /// The stage of the run once the command of `stage` has ended, with
    /// success where `ok` holds.
    pub fn advance(&self, stage: Stage, ok: bool) -> (next: Stage)
        ensures
            next == self.spec_advance(stage, ok),
    {
        if stage.is_terminal() {
            stage
        } else if !ok && stage.is_gated() {
            if !self.continue_on_error {
                Stage::Aborted
            } else {
                match stage {
                    Stage::Project { index, .. } => {
                        if index < self.instructions.len() {
                            self.enter(index + 1, Step::Clone)
                        } else {
                            Stage::Completed
                        }
                    },
                    _ => self.successor(stage),
                }
            }
        } else {
            self.successor(stage)
        }
    }

    /// The command to run at `stage`; `None` where the run has ended.
    pub fn command(&self, stage: Stage) -> (invocation: Option<Invocation>)
        ensures
            invocation.deep_view() == self.spec_command(stage),
    {
        match stage {
            Stage::Target => Some(
                git_clone(self.test.url.as_str(), Some(self.test.rev.as_str())),
            ),
            Stage::Project { index, step } => {
                if index >= self.instructions.len() {
                    None
                } else {
                    let project = &self.instructions[index];
                    let name = project.name.as_str();
                    match step {
                        Step::Clone => {
                            let rev = match &project.rev {
                                Some(rev) => Some(rev.as_str()),
                                None => None,
                            };
                            Some(git_clone(project.url.as_str(), rev))
                        },
                        Step::PreBaseline | Step::PreCheck => match &project.before_action {
                            Some(text) => pre_action(text.as_str(), name),
                            None => None,
                        },
                        Step::Baseline => Some(cargo_action(self.cmd, name)),
                        Step::Substitute => {
                            let package = match &project.package {
                                Some(package) => Some(package.as_str()),
                                None => None,
                            };
                            Some(
                                cargo_add(
                                    self.test.name.as_str(),
                                    self.test_path.as_str(),
                                    package,
                                    name,
                                ),
                            )
                        },
                        Step::Check => Some(cargo_action(Cmd::Check, name)),
                    }
                }
            },
            Stage::Completed | Stage::Aborted => None,
        }
    }
}

} // verus!
