use laravel_maker::error::AppError;
use laravel_maker::pipeline::{run, start, Progress, Stage, Work};

const CHAIN: [Stage; 8] = [
    Stage::EnvironmentReady,
    Stage::ContainerReady,
    Stage::ProjectScaffolded,
    Stage::ConfigPatched,
    Stage::DependenciesInstalled,
    Stage::VhostWritten,
    Stage::HostAliasRegistered,
    Stage::ProxyRestarted,
];

#[test]
fn a_run_begins_with_the_environment_ready() {
    assert_eq!(start(), Stage::EnvironmentReady);
}

#[test]
fn each_success_leads_one_state_further() {
    for i in 0..7 {
        assert_eq!(run(CHAIN[i], Ok(())), Progress::Reached(CHAIN[i + 1]));
    }
}

#[test]
fn seven_successes_make_a_full_run() {
    let mut stage = start();
    let mut done = Vec::new();
    while let Some(work) = stage.work() {
        done.push(work);
        match run(stage, Ok(())) {
            Progress::Reached(next) => stage = next,
            Progress::Aborted { .. } => unreachable!(),
        }
    }
    assert_eq!(stage, Stage::ProxyRestarted);
    assert_eq!(
        done,
        vec![
            Work::WaitForContainer,
            Work::Scaffold,
            Work::PatchConfig,
            Work::InstallDependencies,
            Work::WriteVhost,
            Work::RegisterAlias,
            Work::RestartProxy,
        ]
    );
}

#[test]
fn a_failure_aborts_the_run_where_it_stands() {
    for stage in CHAIN {
        assert_eq!(
            run(stage, Err(AppError::Docker("down".to_string()))),
            Progress::Aborted { at: stage, error: AppError::Docker("down".to_string()) }
        );
    }
}

#[test]
fn a_failure_in_the_middle_leaves_the_rest_undone() {
    let mut stage = start();
    let mut done = Vec::new();
    let mut error = None;
    while let Some(work) = stage.work() {
        done.push(work);
        let outcome = if work == Work::PatchConfig {
            Err(AppError::Docker("rule".to_string()))
        } else {
            Ok(())
        };
        match run(stage, outcome) {
            Progress::Reached(next) => stage = next,
            Progress::Aborted { at, error: e } => {
                assert_eq!(at, Stage::ProjectScaffolded);
                error = Some(e);
                break;
            }
        }
    }
    assert_eq!(done, vec![Work::WaitForContainer, Work::Scaffold, Work::PatchConfig]);
    assert_eq!(error, Some(AppError::Docker("rule".to_string())));
}

#[test]
fn the_last_state_has_no_work() {
    assert_eq!(Stage::ProxyRestarted.work(), None);
    assert_eq!(run(Stage::ProxyRestarted, Ok(())), Progress::Reached(Stage::ProxyRestarted));
}
