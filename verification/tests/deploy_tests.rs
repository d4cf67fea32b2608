use webhook_deploy::deploy::{
    deploy_advance, deploy_commands, deploy_initial, evaluate_command_output, next_step,
    DeployGuard, DeployStatus, StepResult,
};

#[test]
fn test_commands_fetch_build_restart_in_order() {
    let cmds = deploy_commands();
    assert_eq!(cmds.len(), 3);
    assert_eq!(cmds[0].program, "git");
    assert_eq!(cmds[0].args, vec!["pull".to_string()]);
    assert_eq!(cmds[1].program, "docker-compose");
    assert_eq!(cmds[1].args, vec!["build".to_string()]);
    assert_eq!(cmds[2].program, "docker-compose");
    assert_eq!(cmds[2].args, vec!["up".to_string(), "-d".to_string()]);
    for c in &cmds {
        assert_eq!(c.cwd, "/home/ubuntu/discord_hub_bot");
    }
}

#[test]
fn test_full_run_succeeds_in_order() {
    let mut st = deploy_initial();
    let mut seen = Vec::new();
    while let Some(i) = next_step(&st) {
        seen.push(i);
        st = deploy_advance(st, StepResult::Completed);
    }
    assert_eq!(seen, vec![0, 1, 2]);
    assert!(matches!(st, DeployStatus::Succeeded));
}

#[test]
fn test_second_step_failure_halts_run() {
    let st = deploy_initial();
    let st = deploy_advance(st, StepResult::Completed);
    assert_eq!(next_step(&st), Some(1));
    let outcome = evaluate_command_output(false, "build exploded");
    let st = deploy_advance(st, outcome);
    // The third command is never requested and the diagnostic is kept.
    assert_eq!(next_step(&st), None);
    match st {
        DeployStatus::Failed { step, error } => {
            assert_eq!(step, 1);
            assert_eq!(error, "Command failed: build exploded");
        }
        _ => panic!("run did not halt on the failed step"),
    }
}

#[test]
fn test_first_step_failure() {
    let st = deploy_initial();
    let st = deploy_advance(st, StepResult::Failed("no remote".to_string()));
    assert_eq!(next_step(&st), None);
    match st {
        DeployStatus::Failed { step, error } => {
            assert_eq!(step, 0);
            assert_eq!(error, "no remote");
        }
        _ => panic!("run did not halt on the failed step"),
    }
}

#[test]
fn test_guard_single_flight() {
    let mut g = DeployGuard::new();
    assert!(g.try_begin());
    // While a run is in flight, a second trigger is rejected.
    assert!(!g.try_begin());
    assert!(!g.try_begin());
    g.finish();
    assert!(g.try_begin());
}

#[test]
fn test_evaluate_command_output() {
    assert!(matches!(evaluate_command_output(true, ""), StepResult::Completed));
    assert!(matches!(
        evaluate_command_output(true, "warnings on stderr"),
        StepResult::Completed
    ));
    match evaluate_command_output(false, "fatal: not a git repository") {
        StepResult::Failed(m) => assert_eq!(m, "Command failed: fatal: not a git repository"),
        _ => panic!("non-zero exit must fail the step"),
    }
}
