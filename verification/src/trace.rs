//! What holds of every run of a plan, whatever verdicts its commands end
//! with.
//!
//! A run is described by the verdicts of the commands that have ended so
//! far: `verdicts[j]` says whether the command that was run at the `j`-th
//! stage succeeded.

use crate::pipeline::{Plan, Stage, Step};
use vstd::prelude::*;

verus! {

impl Plan {
    /// How far a run has come at `stage`: the clone of the library under test
    /// comes first, then the steps of the projects, project by project, then
    /// the two ways in which a run ends.
    pub open spec fn spec_rank(&self, stage: Stage) -> int {
        match stage {
            Stage::Target => 0,
            Stage::Project { index, step } => 1 + 6 * index + step.spec_ordinal(),
            Stage::Completed => 1 + 6 * (self.instructions@.len() as int),
            Stage::Aborted => 2 + 6 * (self.instructions@.len() as int),
        }
    }

    /// The stage of a run once its first commands have ended with the
    /// verdicts `verdicts`, in this order.
    pub open spec fn spec_stage_after(&self, verdicts: Seq<bool>) -> Stage
        decreases verdicts.len(),
    {
        if verdicts.len() == 0 {
            Stage::Target
        } else {
            self.spec_advance(self.spec_stage_after(verdicts.drop_last()), verdicts.last())
        }
    }

    /// How often a run has stood at the clone of the project at `index`
    /// while its first commands ended with `verdicts`: the number of
    /// beginnings of `verdicts`, the empty one and the whole among them,
    /// after which the run stands there.
    pub open spec fn spec_attempts(&self, verdicts: Seq<bool>, index: usize) -> nat
        decreases verdicts.len(),
    {
        let now: nat = if self.spec_stage_after(verdicts) == (Stage::Project {
            index,
            step: Step::Clone,
        }) {
            1
        } else {
            0
        };
        if verdicts.len() == 0 {
            now
        } else {
            now + self.spec_attempts(verdicts.drop_last(), index)
        }
    }

    /// Whether no failure among `verdicts` can end the run: the plan says to
    /// continue on errors, or every command succeeded.
    pub open spec fn spec_unhindered(&self, verdicts: Seq<bool>) -> bool {
        self.continue_on_error || forall|j: int| 0 <= j < verdicts.len() ==> verdicts[j]
    }
}

impl Plan {
    /// The stage of a run once its first commands have ended with the
    /// verdicts `verdicts`, in this order.
    pub fn stage_after(&self, verdicts: &Vec<bool>) -> (stage: Stage)
        ensures
            stage == self.spec_stage_after(verdicts@),
    {
        let mut stage = Stage::Target;
        let mut i: usize = 0;
        assert(verdicts@.take(0).len() == 0);
        while i < verdicts.len()
            invariant
                i <= verdicts.len(),
                stage == self.spec_stage_after(verdicts@.take(i as int)),
            decreases verdicts.len() - i,
        {
            proof {
                let longer = verdicts@.take(i + 1);
                assert(longer.drop_last() == verdicts@.take(i as int));
                assert(longer.last() == verdicts@[i as int]);
            }
            stage = self.advance(stage, verdicts[i]);
            i = i + 1;
        }
        assert(verdicts@.take(i as int) == verdicts@);
        stage
    }
}

/// A run starts at a stage that the plan admits, and moves from one such
/// stage to another.
pub proof fn lemma_advance_admitted(plan: Plan, stage: Stage, ok: bool)
    requires
        plan.admits(stage),
    ensures
        plan.admits(Stage::Target),
        plan.admits(plan.spec_advance(stage, ok)),
{
}

/// There is a command to run at every stage that the plan admits, but where
/// the run has ended.
pub proof fn lemma_command_until_end(plan: Plan, stage: Stage)
    requires
        plan.admits(stage),
    ensures
        plan.spec_command(stage) is Some <==> !stage.spec_is_terminal(),
{
}

/// Every command takes the run further, and a run that has ended stays as
/// it ended.
pub proof fn lemma_advance_moves_forward(plan: Plan, stage: Stage, ok: bool)
    requires
        plan.admits(stage),
    ensures
        !stage.spec_is_terminal() ==> plan.spec_rank(plan.spec_advance(stage, ok)) > plan.spec_rank(
            stage,
        ),
        stage.spec_is_terminal() ==> plan.spec_advance(stage, ok) == stage,
{
    // The number of projects is the length of a vector, so the index of the
    // project after this one is still an index.
    assert(plan.instructions.len() == plan.instructions@.len());
}

/// Every stage of a run is one that the plan admits.
pub proof fn lemma_stages_admitted(plan: Plan, verdicts: Seq<bool>)
    ensures
        plan.admits(plan.spec_stage_after(verdicts)),
    decreases verdicts.len(),
{
    if verdicts.len() > 0 {
        lemma_stages_admitted(plan, verdicts.drop_last());
        lemma_advance_admitted(
            plan,
            plan.spec_stage_after(verdicts.drop_last()),
            verdicts.last(),
        );
    }
}

/// No stage is visited twice: as long as the run has not ended, the stage
/// after more commands has a higher rank than the stage after fewer.
pub proof fn lemma_stages_in_order(plan: Plan, verdicts: Seq<bool>, k: int)
    requires
        0 <= k < verdicts.len(),
        !plan.spec_stage_after(verdicts.take(k)).spec_is_terminal(),
    ensures
        plan.spec_rank(plan.spec_stage_after(verdicts.take(k))) < plan.spec_rank(
            plan.spec_stage_after(verdicts),
        ),
    decreases verdicts.len(),
{
    let shorter = verdicts.drop_last();
    lemma_stages_admitted(plan, shorter);
    lemma_advance_moves_forward(plan, plan.spec_stage_after(shorter), verdicts.last());
    if k < shorter.len() {
        assert(shorter.take(k) == verdicts.take(k));
        lemma_stages_in_order(plan, shorter, k);
    } else {
        assert(shorter == verdicts.take(k));
    }
}

/// A run that has ended stays as it ended, whatever is reported to it.
pub proof fn lemma_end_is_final(plan: Plan, verdicts: Seq<bool>, k: int)
    requires
        0 <= k <= verdicts.len(),
        plan.spec_stage_after(verdicts.take(k)).spec_is_terminal(),
    ensures
        plan.spec_stage_after(verdicts) == plan.spec_stage_after(verdicts.take(k)),
    decreases verdicts.len(),
{
    if k < verdicts.len() {
        let shorter = verdicts.drop_last();
        assert(shorter.take(k) == verdicts.take(k));
        lemma_end_is_final(plan, shorter, k);
    } else {
        assert(verdicts.take(k) == verdicts);
    }
}

/// The library under test is cloned first, and only once.
pub proof fn lemma_target_cloned_first_and_once(plan: Plan, verdicts: Seq<bool>)
    ensures
        plan.spec_stage_after(verdicts) == Stage::Target <==> verdicts.len() == 0,
{
    if verdicts.len() > 0 {
        assert(verdicts.take(0).len() == 0);
        lemma_stages_in_order(plan, verdicts, 0);
    }
}

/// Where the plan does not say to continue on errors, a failure at a gated
/// stage ends the whole run. With the command at position `k` the one that
/// failed: after more than `k` commands the run stands at `Aborted`, where
/// there is no command to run; and no stage of the run, before the failure or
/// after it, belongs to a project after the one that failed.
pub proof fn lemma_failure_ends_run(plan: Plan, verdicts: Seq<bool>, k: int, m: int)
    requires
        !plan.continue_on_error,
        0 <= k < verdicts.len(),
        plan.spec_stage_after(verdicts.take(k)).spec_is_gated(),
        !verdicts[k],
        0 <= m <= verdicts.len(),
    ensures
        m > k ==> plan.spec_stage_after(verdicts.take(m)) == Stage::Aborted,
        m > k ==> plan.spec_command(plan.spec_stage_after(verdicts.take(m))) is None,
        plan.spec_stage_after(verdicts.take(m)) matches Stage::Project { index, .. } ==> (
        plan.spec_stage_after(verdicts.take(k)) matches Stage::Project { index: failed, .. }
            && index <= failed),
{
    let failing = verdicts.take(k + 1);
    assert(failing.drop_last() == verdicts.take(k));
    assert(plan.spec_stage_after(failing) == Stage::Aborted);
    if m > k {
        let longer = verdicts.take(m);
        assert(longer.take(k + 1) == failing);
        lemma_end_is_final(plan, longer, k + 1);
    } else if m < k {
        let until = verdicts.take(k);
        assert(until.take(m) == verdicts.take(m));
        lemma_stages_admitted(plan, until.take(m));
        lemma_stages_admitted(plan, until);
        if plan.spec_stage_after(until.take(m)).spec_is_terminal() {
            lemma_end_is_final(plan, until, m);
        } else {
            lemma_stages_in_order(plan, until, m);
        }
    }
}

/// Where the plan says to continue on errors, a failure at a gated step of
/// a project skips the rest of that project: the run goes on with the clone
/// of the next project, or is completed where the project was the last. A
/// failed clone of the library under test is followed by the clone of the
/// first project.
pub proof fn lemma_failure_skips_to_next_project(plan: Plan, stage: Stage)
    requires
        plan.continue_on_error,
        plan.admits(stage),
        stage.spec_is_gated(),
    ensures
        stage matches Stage::Project { index, .. } ==> plan.spec_advance(stage, false)
            == plan.spec_enter(index + 1, Step::Clone),
        stage matches Stage::Project { index, .. } ==> (index + 1 < plan.instructions@.len()
            ==> plan.spec_advance(stage, false) == (Stage::Project {
            index: (index + 1) as usize,
            step: Step::Clone,
        })),
        stage matches Stage::Project { index, .. } ==> (index + 1 == plan.instructions@.len()
            ==> plan.spec_advance(stage, false) == Stage::Completed),
        stage == Stage::Target ==> plan.spec_advance(stage, false) == plan.spec_enter(
            0,
            Step::Clone,
        ),
{
}

/// Where no failure can end the run, it is never aborted.
pub proof fn lemma_unhindered_run_is_not_aborted(plan: Plan, verdicts: Seq<bool>)
    requires
        plan.spec_unhindered(verdicts),
    ensures
        plan.spec_stage_after(verdicts) != Stage::Aborted,
    decreases verdicts.len(),
{
    if verdicts.len() > 0 {
        let shorter = verdicts.drop_last();
        assert(plan.spec_unhindered(shorter));
        assert(verdicts.last() == verdicts[verdicts.len() - 1]);
        lemma_unhindered_run_is_not_aborted(plan, shorter);
        lemma_stages_admitted(plan, shorter);
        assert(plan.instructions.len() == plan.instructions@.len());
    }
}

/// Every run ends: it takes no more than six commands for each project and
/// one for the library under test.
pub proof fn lemma_run_ends(plan: Plan, verdicts: Seq<bool>)
    ensures
        !plan.spec_stage_after(verdicts).spec_is_terminal() ==> verdicts.len() <= plan.spec_rank(
            plan.spec_stage_after(verdicts),
        ) <= 6 * plan.instructions@.len(),
        verdicts.len() > 6 * plan.instructions@.len() ==> plan.spec_stage_after(
            verdicts,
        ).spec_is_terminal(),
    decreases verdicts.len(),
{
    lemma_stages_admitted(plan, verdicts);
    if verdicts.len() > 0 {
        let shorter = verdicts.drop_last();
        lemma_run_ends(plan, shorter);
        lemma_stages_admitted(plan, shorter);
        lemma_advance_moves_forward(plan, plan.spec_stage_after(shorter), verdicts.last());
    }
}

/// How the attempts of a project go with the rank of the run: a run that
/// has not come to the clone of the project has not attempted it, and no run
/// has attempted it more than once. Where no failure can end the run, a run
/// that has come to the clone of the project or further has attempted it.
proof fn lemma_attempts_by_rank(plan: Plan, verdicts: Seq<bool>, index: usize)
    requires
        index < plan.instructions@.len(),
    ensures
        plan.spec_attempts(verdicts, index) <= 1,
        plan.spec_attempts(verdicts, index) == 1 ==> plan.spec_rank(
            plan.spec_stage_after(verdicts),
        ) >= 1 + 6 * index,
        plan.spec_unhindered(verdicts) && plan.spec_rank(plan.spec_stage_after(verdicts)) >= 1 + 6
            * index ==> plan.spec_attempts(verdicts, index) == 1,
    decreases verdicts.len(),
{
    if verdicts.len() > 0 {
        let shorter = verdicts.drop_last();
        let before = plan.spec_stage_after(shorter);
        lemma_attempts_by_rank(plan, shorter, index);
        lemma_stages_admitted(plan, shorter);
        lemma_advance_moves_forward(plan, before, verdicts.last());
        assert(plan.instructions.len() == plan.instructions@.len());
        if plan.spec_unhindered(verdicts) {
            assert(plan.spec_unhindered(shorter));
            assert(verdicts.last() == verdicts[verdicts.len() - 1]);
            lemma_unhindered_run_is_not_aborted(plan, verdicts);
        }
    }
}

/// No project is attempted twice, whatever the policy and the verdicts are:
/// a run stands at the clone of a project at most once.
pub proof fn lemma_no_project_attempted_twice(plan: Plan, verdicts: Seq<bool>, index: usize)
    requires
        index < plan.instructions@.len(),
    ensures
        plan.spec_attempts(verdicts, index) <= 1,
{
    lemma_attempts_by_rank(plan, verdicts, index);
}

/// Where the plan says to continue on errors, or every command succeeded,
/// every project is attempted exactly once in a run that has come to its
/// end, whatever the verdicts are, and the run is completed.
pub proof fn lemma_every_project_attempted_once(plan: Plan, verdicts: Seq<bool>, index: usize)
    requires
        plan.spec_unhindered(verdicts),
        plan.spec_stage_after(verdicts).spec_is_terminal(),
        index < plan.instructions@.len(),
    ensures
        plan.spec_stage_after(verdicts) == Stage::Completed,
        plan.spec_attempts(verdicts, index) == 1,
{
    lemma_unhindered_run_is_not_aborted(plan, verdicts);
    lemma_attempts_by_rank(plan, verdicts, index);
}

/// The commands that run in a workspace itself are the clones, each in the
/// workspace that is opened for it; every other command runs in the
/// directory of its project inside the workspace of that project's clone.
pub proof fn lemma_clones_open_workspaces(plan: Plan, stage: Stage)
    requires
        plan.admits(stage),
        !stage.spec_is_terminal(),
    ensures
        plan.spec_command(stage) matches Some(command) && (command.subdir is None
            <==> stage.spec_opens_workspace()),
        stage matches Stage::Project { index, .. } ==> (!stage.spec_opens_workspace() ==> (
        plan.spec_command(stage) matches Some(command) && command.subdir == Some(
            plan.instructions@[index as int]@.name,
        ))),
{
}

/// The library under test is substituted into every project from the same
/// place, the clone that the plan names, and under its own name.
pub proof fn lemma_one_source_for_every_project(plan: Plan, index: usize)
    requires
        index < plan.instructions@.len(),
    ensures
        plan.spec_command(Stage::Project { index, step: Step::Substitute }) matches Some(command)
            && command.args.len() >= 4 && command.args[0] == "add"@ && command.args[1]
            == plan.test@.name && command.args[2] == "--path"@ && command.args[3]
            == plan.test_path@,
{
}

/// A pre-action whose text is empty is no step of the run: the clone of the
/// project is followed by its baseline build, and the substitution by the
/// check.
pub proof fn lemma_empty_pre_action_is_skipped(plan: Plan, index: usize)
    requires
        index < plan.instructions@.len(),
        plan.instructions@[index as int]@.before_action == Some(Seq::<char>::empty()),
    ensures
        !plan.spec_has_pre_action(index as int),
        plan.spec_successor(Stage::Project { index, step: Step::Clone }) == (Stage::Project {
            index,
            step: Step::Baseline,
        }),
        plan.spec_successor(Stage::Project { index, step: Step::Substitute }) == (Stage::Project {
            index,
            step: Step::Check,
        }),
{
}

} // verus!
