use compat_runner::model::{Cmd, Instruction, Test};
use compat_runner::narration::Shown;
use compat_runner::pipeline::{Plan, Stage, Step};

fn shown() -> Shown {
    Shown {
        workspace: "\"/tmp/ws1\"".to_string(),
        project_dir: "\"/tmp/ws1/proj\"".to_string(),
        test_path: "\"/tmp/ws0/lib\"".to_string(),
    }
}

fn plan(instruction: Instruction) -> Plan {
    Plan {
        test: Test::new("A", "lib", "main"),
        instructions: vec![instruction],
        cmd: Cmd::Test,
        continue_on_error: false,
        test_path: "/tmp/ws0/lib".to_string(),
    }
}

fn at(step: Step) -> Stage {
    Stage::Project { index: 0, step }
}

#[test]
fn clones_name_the_workspace() {
    let plan = plan(Instruction::new("B", "proj"));
    assert_eq!(plan.announcement(Stage::Target, &shown()), vec!["[-] Cloning into \"/tmp/ws1\""]);
    assert_eq!(plan.announcement(at(Step::Clone), &shown()), vec!["[-] Cloning into \"/tmp/ws1\""]);
}

#[test]
fn builds_name_the_project_directory() {
    let plan = plan(Instruction::new("B", "proj"));
    assert_eq!(
        plan.announcement(at(Step::Baseline), &shown()),
        vec!["[-] Evaluating \"/tmp/ws1/proj\""]
    );
    assert_eq!(
        plan.announcement(at(Step::Check), &shown()),
        vec!["[-] Checking Modified \"/tmp/ws1/proj\""]
    );
}

#[test]
fn substitution_names_dependency_project_and_source() {
    let plan = plan(Instruction::new("B", "proj"));
    assert_eq!(
        plan.announcement(at(Step::Substitute), &shown()),
        vec!["[-] Modified dep lib in \"/tmp/ws1/proj\" with \"/tmp/ws0/lib\""]
    );
}

#[test]
fn substitution_names_the_package() {
    let mut instruction = Instruction::new("B", "proj");
    instruction.package = Some("member".to_string());
    let plan = plan(instruction);
    assert_eq!(
        plan.announcement(at(Step::Substitute), &shown()),
        vec![
            "[-] Modified dep lib in \"/tmp/ws1/proj\" with \"/tmp/ws0/lib\"",
            "[-] with package: member"
        ]
    );
}

#[test]
fn pre_action_is_quoted_as_configured() {
    let mut instruction = Instruction::new("B", "proj");
    instruction.before_action = Some("cargo  update -p syn".to_string());
    let plan = plan(instruction);
    assert_eq!(
        plan.announcement(at(Step::PreBaseline), &shown()),
        vec!["[-] running extra cmd: cargo  update -p syn"]
    );
    assert_eq!(
        plan.announcement(at(Step::PreCheck), &shown()),
        vec!["[-] running extra cmd: cargo  update -p syn"]
    );
}

#[test]
fn nothing_is_announced_where_nothing_runs() {
    let mut instruction = Instruction::new("B", "proj");
    instruction.before_action = Some("".to_string());
    let plan = plan(instruction);
    let stages = [
        at(Step::PreBaseline),
        at(Step::PreCheck),
        Stage::Completed,
        Stage::Aborted,
        Stage::Project { index: 1, step: Step::Clone },
        Stage::Project { index: 7, step: Step::Substitute },
    ];
    for stage in stages {
        assert_eq!(plan.announcement(stage, &shown()), Vec::<String>::new());
        assert_eq!(plan.command(stage), None);
    }
}

#[test]
fn every_command_is_announced() {
    let mut instruction = Instruction::new("B", "proj");
    instruction.before_action = Some("make".to_string());
    let plan = plan(instruction);
    let mut stage = Stage::Target;
    let mut commands = 0;
    while let Some(_) = plan.command(stage) {
        assert!(!plan.announcement(stage, &shown()).is_empty());
        stage = plan.advance(stage, true);
        commands += 1;
    }
    assert_eq!(commands, 7);
}
