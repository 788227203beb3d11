use compat_runner::model::{Cmd, Instruction, Test};
use compat_runner::pipeline::{Plan, Stage, Step};

fn plan(continue_on_error: bool) -> Plan {
    let mut second = Instruction::new("C", "two");
    second.before_action = Some("make prepare".to_string());
    Plan {
        test: Test::new("A", "lib", "main"),
        instructions: vec![Instruction::new("B", "one"), second, Instruction::new("D", "three")],
        cmd: Cmd::Check,
        continue_on_error,
        test_path: "/tmp/ws0/lib".to_string(),
    }
}

/// All sequences of verdicts of the given length.
fn all_verdicts(len: usize) -> Vec<Vec<bool>> {
    let mut all = vec![Vec::new()];
    for _ in 0..len {
        let mut longer = Vec::new();
        for verdicts in &all {
            for ok in [true, false] {
                let mut next = verdicts.clone();
                next.push(ok);
                longer.push(next);
            }
        }
        all = longer;
    }
    all
}

#[test]
fn run_starts_at_the_target() {
    assert_eq!(plan(false).stage_after(&Vec::new()), Stage::Target);
    assert_eq!(plan(true).stage_after(&Vec::new()), Stage::Target);
}

#[test]
fn target_is_cloned_once() {
    for verdicts in all_verdicts(6) {
        for len in 1..=verdicts.len() {
            let prefix = verdicts[..len].to_vec();
            assert_ne!(plan(false).stage_after(&prefix), Stage::Target);
            assert_ne!(plan(true).stage_after(&prefix), Stage::Target);
        }
    }
}

#[test]
fn stage_after_success() {
    let plan = plan(false);
    assert_eq!(plan.stage_after(&vec![true]), Stage::Project { index: 0, step: Step::Clone });
    assert_eq!(plan.stage_after(&vec![true; 2]), Stage::Project { index: 0, step: Step::Baseline });
    assert_eq!(plan.stage_after(&vec![true; 5]), Stage::Project { index: 1, step: Step::Clone });
    assert_eq!(plan.stage_after(&vec![true; 6]), Stage::Project { index: 1, step: Step::PreBaseline });
    assert_eq!(plan.stage_after(&vec![true; 11]), Stage::Project { index: 2, step: Step::Clone });
    assert_eq!(plan.stage_after(&vec![true; 14]), Stage::Project { index: 2, step: Step::Check });
    assert_eq!(plan.stage_after(&vec![true; 15]), Stage::Completed);
    assert_eq!(plan.stage_after(&vec![true; 40]), Stage::Completed);
}

#[test]
fn first_failure_aborts_for_good() {
    let plan = plan(false);
    for verdicts in all_verdicts(9) {
        let mut stage = Stage::Target;
        let mut failed_project: Option<Option<usize>> = None;
        for (position, ok) in verdicts.iter().enumerate() {
            let prefix = verdicts[..position].to_vec();
            assert_eq!(plan.stage_after(&prefix), stage);
            if let Some(failed) = failed_project {
                assert_eq!(stage, Stage::Aborted);
                let _ = failed;
            } else if !*ok && stage.is_gated() {
                failed_project = Some(match stage {
                    Stage::Project { index, .. } => Some(index),
                    _ => None,
                });
            }
            stage = plan.advance(stage, *ok);
        }
        if let Some(failed) = failed_project {
            assert_eq!(plan.stage_after(&verdicts), Stage::Aborted);
            for len in 0..=verdicts.len() {
                if let Stage::Project { index, .. } = plan.stage_after(&verdicts[..len].to_vec()) {
                    assert!(Some(index) <= failed);
                }
            }
        }
    }
}

#[test]
fn continue_on_error_never_aborts() {
    let plan = plan(true);
    for verdicts in all_verdicts(10) {
        assert_ne!(plan.stage_after(&verdicts), Stage::Aborted);
    }
    for len in 0..40 {
        assert_ne!(plan.stage_after(&vec![false; len]), Stage::Aborted);
    }
}

#[test]
fn continue_on_error_skips_to_the_next_project() {
    let plan = plan(true);
    assert_eq!(plan.stage_after(&vec![false]), Stage::Project { index: 0, step: Step::Clone });
    assert_eq!(plan.stage_after(&vec![false; 2]), Stage::Project { index: 1, step: Step::Clone });
    assert_eq!(plan.stage_after(&vec![false; 3]), Stage::Project { index: 2, step: Step::Clone });
    assert_eq!(plan.stage_after(&vec![false; 4]), Stage::Completed);
    assert_eq!(
        plan.stage_after(&vec![true, true, false]),
        Stage::Project { index: 1, step: Step::Clone }
    );
    assert_eq!(
        plan.stage_after(&vec![true, true, true, false]),
        Stage::Project { index: 1, step: Step::Clone }
    );
    assert_eq!(
        plan.stage_after(&vec![true, true, true, true, false]),
        Stage::Project { index: 1, step: Step::Clone }
    );
    // The pre-action of the second project fails: its baseline build follows.
    assert_eq!(
        plan.stage_after(&vec![true, true, true, true, true, true, false]),
        Stage::Project { index: 1, step: Step::Baseline }
    );
}

#[test]
fn continue_on_error_clones_every_project_exactly_once() {
    let plan = plan(true);
    // No run of this plan takes more than 1 + 4 + 6 + 4 commands.
    for verdicts in all_verdicts(15) {
        let mut stage = Stage::Target;
        let mut attempts = [0usize; 3];
        for ok in &verdicts {
            if let Stage::Project { index, step: Step::Clone } = stage {
                attempts[index] += 1;
            }
            stage = plan.advance(stage, *ok);
        }
        assert_eq!(stage, Stage::Completed);
        assert_eq!(attempts, [1, 1, 1]);
    }
    assert_eq!(plan.stage_after(&vec![false; 15]), Stage::Completed);
    assert_eq!(plan.stage_after(&vec![true; 15]), Stage::Completed);
}

#[test]
fn no_project_is_cloned_twice_under_either_policy() {
    for continue_on_error in [false, true] {
        let plan = plan(continue_on_error);
        for verdicts in all_verdicts(12) {
            let mut stage = Stage::Target;
            let mut attempts = [0usize; 3];
            for ok in &verdicts {
                if let Stage::Project { index, step: Step::Clone } = stage {
                    attempts[index] += 1;
                }
                stage = plan.advance(stage, *ok);
            }
            assert!(attempts.iter().all(|count| *count <= 1));
            assert_eq!(plan.stage_after(&verdicts), stage);
        }
    }
}

#[test]
fn every_run_ends() {
    for continue_on_error in [false, true] {
        let plan = plan(continue_on_error);
        for verdicts in all_verdicts(6) {
            let mut longer = verdicts.clone();
            longer.extend(vec![true; 13]);
            assert!(plan.stage_after(&longer).is_terminal());
            let mut longer = verdicts.clone();
            longer.extend(vec![false; 13]);
            assert!(plan.stage_after(&longer).is_terminal());
        }
    }
}

#[test]
fn no_stage_is_visited_twice() {
    for continue_on_error in [false, true] {
        let plan = plan(continue_on_error);
        for verdicts in all_verdicts(7) {
            let mut seen: Vec<Stage> = Vec::new();
            for len in 0..=verdicts.len() {
                let stage = plan.stage_after(&verdicts[..len].to_vec());
                if !stage.is_terminal() {
                    assert!(!seen.contains(&stage));
                }
                seen.push(stage);
            }
        }
    }
}
