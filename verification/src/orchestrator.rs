//! The launch sequence as a state machine: stage the resource, then locate
//! and spawn the backend, then hand control to the GUI host.  Every failure
//! becomes a diagnostic, never an abort: the host application's window must
//! come up whatever happened to the backend.  The machine is linear, with no
//! retries; all four combinations of staged/failed and spawned/failed are
//! valid ways to reach the terminal state.

use vstd::prelude::*;
use crate::paths::AbsPath;
use crate::stager::StagingError;
use crate::locator::LocateError;
use crate::supervisor::ProcessRecord;

verus! {

/// Where a launch stands.
#[derive(Clone, Copy, Debug, PartialEq, Eq, Structural)]
pub enum LaunchState {
    Idle,
    ResourceStaged,
    ResourceStageFailed,
    BackendSpawned,
    BackendSpawnFailed,
    Done,
}

/// The failure of the backend stage: either discovery found no entry point,
/// or the operating system refused to create the process (the text is the
/// OS's own account of the refusal).
#[derive(Clone, Debug, PartialEq, Eq)]
pub enum BackendError {
    BackendNotFound,
    SpawnFailed(String),
}

/// What the driver reports back to the machine after carrying out an action.
pub enum LaunchEvent {
    StagingDone(Result<AbsPath, StagingError>),
    SpawnDone(Result<ProcessRecord, BackendError>),
    HandoffDone,
}

/// What the machine asks the driver to do next.
#[derive(Clone, Copy, Debug, PartialEq, Eq, Structural)]
pub enum LaunchAction {
    RunStaging,
    RunBackendLaunch,
    HandOffToGui,
    NoAction,
}

/// A non-fatal failure, recorded for diagnosis and then set aside.
#[derive(Clone, Debug, PartialEq, Eq)]
pub enum Diagnostic {
    ResourceNotFound,
    StagingWriteFailed(AbsPath),
    BackendNotFound,
    SpawnFailed(String),
}

/// One step's outcome: the next state, the next action, and the diagnostic
/// to record, if the event reported a failure.
pub struct StepResult {
    pub state: LaunchState,
    pub action: LaunchAction,
    pub diagnostic: Option<Diagnostic>,
}

/// The diagnostic an event's failure deserves, if any.
pub open spec fn spec_event_diagnostic(e: LaunchEvent) -> Option<Diagnostic> {
    match e {
        LaunchEvent::StagingDone(Err(StagingError::ResourceNotFound)) => Some(
            Diagnostic::ResourceNotFound,
        ),
        LaunchEvent::SpawnDone(Err(BackendError::BackendNotFound)) => Some(
            Diagnostic::BackendNotFound,
        ),
        LaunchEvent::SpawnDone(Err(BackendError::SpawnFailed(msg))) => Some(
            Diagnostic::SpawnFailed(msg),
        ),
        _ => None,
    }
}

/// The transition function of the launch machine.  A staging outcome moves an
/// idle launch on to the backend stage whether or not staging succeeded; a
/// spawn outcome moves it on to the GUI hand-off whether or not the spawn
/// succeeded; the hand-off finishes it.  An event that does not belong to the
/// current state changes nothing.
pub open spec fn spec_step(s: LaunchState, e: LaunchEvent) -> StepResult {
    match (s, e) {
        (LaunchState::Idle, LaunchEvent::StagingDone(outcome)) => StepResult {
            state: if outcome is Ok {
                LaunchState::ResourceStaged
            } else {
                LaunchState::ResourceStageFailed
            },
            action: LaunchAction::RunBackendLaunch,
            diagnostic: spec_event_diagnostic(e),
        },
        (LaunchState::ResourceStaged, LaunchEvent::SpawnDone(outcome)) => StepResult {
            state: if outcome is Ok {
                LaunchState::BackendSpawned
            } else {
                LaunchState::BackendSpawnFailed
            },
            action: LaunchAction::HandOffToGui,
            diagnostic: spec_event_diagnostic(e),
        },
        (LaunchState::ResourceStageFailed, LaunchEvent::SpawnDone(outcome)) => StepResult {
            state: if outcome is Ok {
                LaunchState::BackendSpawned
            } else {
                LaunchState::BackendSpawnFailed
            },
            action: LaunchAction::HandOffToGui,
            diagnostic: spec_event_diagnostic(e),
        },
        (LaunchState::BackendSpawned, LaunchEvent::HandoffDone) => StepResult {
            state: LaunchState::Done,
            action: LaunchAction::NoAction,
            diagnostic: None,
        },
        (LaunchState::BackendSpawnFailed, LaunchEvent::HandoffDone) => StepResult {
            state: LaunchState::Done,
            action: LaunchAction::NoAction,
            diagnostic: None,
        },
        _ => StepResult { state: s, action: LaunchAction::NoAction, diagnostic: None },
    }
}

/// A launch begins idle, and its first action is to stage the resource.
pub fn initial() -> (r: (LaunchState, LaunchAction))
    ensures
        r.0 == LaunchState::Idle,
        r.1 == LaunchAction::RunStaging,
{
    (LaunchState::Idle, LaunchAction::RunStaging)
}

/// Advances the launch machine by one reported event.
pub fn step(s: LaunchState, e: LaunchEvent) -> (r: StepResult)
    ensures
        r == spec_step(s, e),
{
    match (s, e) {
        (LaunchState::Idle, LaunchEvent::StagingDone(outcome)) => match outcome {
            Ok(_) => StepResult {
                state: LaunchState::ResourceStaged,
                action: LaunchAction::RunBackendLaunch,
                diagnostic: None,
            },
            Err(StagingError::ResourceNotFound) => StepResult {
                state: LaunchState::ResourceStageFailed,
                action: LaunchAction::RunBackendLaunch,
                diagnostic: Some(Diagnostic::ResourceNotFound),
            },
        },
        (LaunchState::ResourceStaged, LaunchEvent::SpawnDone(outcome)) => spawn_step(
            LaunchState::ResourceStaged,
            outcome,
        ),
        (LaunchState::ResourceStageFailed, LaunchEvent::SpawnDone(outcome)) => spawn_step(
            LaunchState::ResourceStageFailed,
            outcome,
        ),
        (LaunchState::BackendSpawned, LaunchEvent::HandoffDone) => StepResult {
            state: LaunchState::Done,
            action: LaunchAction::NoAction,
            diagnostic: None,
        },
        (LaunchState::BackendSpawnFailed, LaunchEvent::HandoffDone) => StepResult {
            state: LaunchState::Done,
            action: LaunchAction::NoAction,
            diagnostic: None,
        },
        (s2, _) => StepResult { state: s2, action: LaunchAction::NoAction, diagnostic: None },
    }
}

/// The shared spawn-outcome transition of the two post-staging states.
fn spawn_step(s: LaunchState, outcome: Result<ProcessRecord, BackendError>) -> (r: StepResult)
    requires
        s == LaunchState::ResourceStaged || s == LaunchState::ResourceStageFailed,
    ensures
        r == spec_step(s, LaunchEvent::SpawnDone(outcome)),
{
    match outcome {
        Ok(_) => StepResult {
            state: LaunchState::BackendSpawned,
            action: LaunchAction::HandOffToGui,
            diagnostic: None,
        },
        Err(BackendError::BackendNotFound) => StepResult {
            state: LaunchState::BackendSpawnFailed,
            action: LaunchAction::HandOffToGui,
            diagnostic: Some(Diagnostic::BackendNotFound),
        },
        Err(BackendError::SpawnFailed(msg)) => StepResult {
            state: LaunchState::BackendSpawnFailed,
            action: LaunchAction::HandOffToGui,
            diagnostic: Some(Diagnostic::SpawnFailed(msg)),
        },
    }
}

/// Maps a locator failure into the backend stage's error.
pub fn backend_error_of_locate(e: LocateError) -> (r: BackendError)
    ensures
        r is BackendNotFound,
{
    match e {
        LocateError::BackendNotFound => BackendError::BackendNotFound,
    }
}

/// Every launch completes: whatever the staging outcome and whatever the
/// spawn outcome, the three reported events drive the machine from idle to
/// done, staging first, the backend next, the GUI hand-off last — so no
/// failure of either stage can keep the host application from coming up.
pub proof fn lemma_launch_always_completes(
    staging: Result<AbsPath, StagingError>,
    spawning: Result<ProcessRecord, BackendError>,
)
    ensures
        ({
            let r1 = spec_step(LaunchState::Idle, LaunchEvent::StagingDone(staging));
            let r2 = spec_step(r1.state, LaunchEvent::SpawnDone(spawning));
            let r3 = spec_step(r2.state, LaunchEvent::HandoffDone);
            &&& r1.action == LaunchAction::RunBackendLaunch
            &&& r2.action == LaunchAction::HandOffToGui
            &&& r3.state == LaunchState::Done
        }),
{
}

/// A missing backend is isolated: when discovery reports that no entry point
/// exists, the machine records exactly the backend-not-found diagnostic,
/// still hands control to the GUI, and still completes.
pub proof fn lemma_backend_not_found_isolated(staging: Result<AbsPath, StagingError>)
    ensures
        ({
            let r1 = spec_step(LaunchState::Idle, LaunchEvent::StagingDone(staging));
            let r2 = spec_step(
                r1.state,
                LaunchEvent::SpawnDone(Err(BackendError::BackendNotFound)),
            );
            &&& r2.diagnostic == Some(Diagnostic::BackendNotFound)
            &&& r2.action == LaunchAction::HandOffToGui
            &&& spec_step(r2.state, LaunchEvent::HandoffDone).state == LaunchState::Done
        }),
{
}

/// The terminal state is absorbing, and only the hand-off reaches it: a
/// finished launch ignores every further event, and no single event skips
/// from idle past the backend stage straight to done.
pub proof fn lemma_done_is_terminal(e: LaunchEvent)
    ensures
        spec_step(LaunchState::Done, e).state == LaunchState::Done,
        spec_step(LaunchState::Done, e).action == LaunchAction::NoAction,
        spec_step(LaunchState::Idle, e).state != LaunchState::Done,
{
}

} // verus!
