use backend_launcher::orchestrator::{
    backend_error_of_locate, initial, step, BackendError, Diagnostic, LaunchAction, LaunchEvent,
    LaunchState,
};
use backend_launcher::locator::LocateError;
use backend_launcher::paths::AbsPath;
use backend_launcher::stager::StagingError;
use backend_launcher::supervisor::ProcessRecord;

fn spot(parts: &[&str]) -> AbsPath {
    AbsPath::from_parts(parts.iter().map(|p| p.to_string()).collect())
}

#[test]
fn launch_full_success_run() {
    let (s0, a0) = initial();
    assert_eq!(s0, LaunchState::Idle);
    assert_eq!(a0, LaunchAction::RunStaging);

    let r1 = step(s0, LaunchEvent::StagingDone(Ok(spot(&["app", "resources", "data.db"]))));
    assert_eq!(r1.state, LaunchState::ResourceStaged);
    assert_eq!(r1.action, LaunchAction::RunBackendLaunch);
    assert_eq!(r1.diagnostic, None);

    let record = ProcessRecord { pid: 99, started_from: spot(&["app", "backend-api.exe"]) };
    let r2 = step(r1.state, LaunchEvent::SpawnDone(Ok(record)));
    assert_eq!(r2.state, LaunchState::BackendSpawned);
    assert_eq!(r2.action, LaunchAction::HandOffToGui);
    assert_eq!(r2.diagnostic, None);

    let r3 = step(r2.state, LaunchEvent::HandoffDone);
    assert_eq!(r3.state, LaunchState::Done);
    assert_eq!(r3.action, LaunchAction::NoAction);
}

#[test]
fn launch_completes_after_backend_not_found() {
    // discovery reports not-found: the launch records the diagnostic, still
    // hands off to the GUI, and still completes
    let (s0, _) = initial();
    let r1 = step(s0, LaunchEvent::StagingDone(Ok(spot(&["app", "data.db"]))));
    let err = backend_error_of_locate(LocateError::BackendNotFound);
    let r2 = step(r1.state, LaunchEvent::SpawnDone(Err(err)));
    assert_eq!(r2.state, LaunchState::BackendSpawnFailed);
    assert_eq!(r2.action, LaunchAction::HandOffToGui);
    assert_eq!(r2.diagnostic, Some(Diagnostic::BackendNotFound));
    let r3 = step(r2.state, LaunchEvent::HandoffDone);
    assert_eq!(r3.state, LaunchState::Done);
}

#[test]
fn staging_failure_is_nonfatal() {
    let (s0, _) = initial();
    let r1 = step(s0, LaunchEvent::StagingDone(Err(StagingError::ResourceNotFound)));
    assert_eq!(r1.state, LaunchState::ResourceStageFailed);
    // the backend is still attempted after a staging failure
    assert_eq!(r1.action, LaunchAction::RunBackendLaunch);
    assert_eq!(r1.diagnostic, Some(Diagnostic::ResourceNotFound));

    let record = ProcessRecord { pid: 7, started_from: spot(&["app", "backend-api.exe"]) };
    let r2 = step(r1.state, LaunchEvent::SpawnDone(Ok(record)));
    assert_eq!(r2.state, LaunchState::BackendSpawned);
    let r3 = step(r2.state, LaunchEvent::HandoffDone);
    assert_eq!(r3.state, LaunchState::Done);
}

#[test]
fn spawn_refusal_keeps_os_message() {
    let (s0, _) = initial();
    let r1 = step(s0, LaunchEvent::StagingDone(Ok(spot(&["app", "data.db"]))));
    let r2 = step(
        r1.state,
        LaunchEvent::SpawnDone(Err(BackendError::SpawnFailed("permission denied".to_string()))),
    );
    assert_eq!(r2.state, LaunchState::BackendSpawnFailed);
    assert_eq!(r2.diagnostic, Some(Diagnostic::SpawnFailed("permission denied".to_string())));
}

#[test]
fn done_ignores_further_events() {
    let r = step(LaunchState::Done, LaunchEvent::HandoffDone);
    assert_eq!(r.state, LaunchState::Done);
    assert_eq!(r.action, LaunchAction::NoAction);
    assert_eq!(r.diagnostic, None);
}

#[test]
fn mismatched_event_changes_nothing() {
    let r = step(LaunchState::Idle, LaunchEvent::HandoffDone);
    assert_eq!(r.state, LaunchState::Idle);
    assert_eq!(r.action, LaunchAction::NoAction);
    assert_eq!(r.diagnostic, None);
}
