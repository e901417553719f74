use diagram_core::supervisor::{
    cleanup_kill_report, port_probe_of_bind, port_warning, stop_kill_report, ArtifactCheck,
    BindOutcome, CleanupDecision, KillOutcome, LivenessProbe, PortProbe, SpawnOutcome,
    StartResolution, StartStatus, StopResolution, StopStatus, Supervisor, SupervisorError,
    RENDER_SERVER_PORT,
};

#[test]
fn fresh_supervisor_is_empty() {
    let s = Supervisor::new();
    assert!(!s.owns_handle);
    assert_eq!(s.ref_count, 0);
    assert!(!s.spawn_pending);
    assert_eq!(RENDER_SERVER_PORT, 8080);
}

#[test]
fn full_lifecycle() {
    // start() with port free and valid artifact -> started, count = 1.
    let mut s = Supervisor::new();
    let r = s.start(None, PortProbe::Free, ArtifactCheck::Present);
    assert_eq!(r, StartResolution::SpawnRequested);
    assert!(s.spawn_pending);
    let r = s.note_spawn_result(SpawnOutcome::Spawned);
    assert_eq!(r, Ok(StartStatus::Started));
    assert_eq!(r.unwrap().label(), "started");
    assert_eq!(s.ref_count, 1);
    assert!(s.owns_handle);
    assert!(!s.spawn_pending);

    // Second start() in the same process -> already-running, count = 2.
    let r = s.start(
        Some(LivenessProbe::Running),
        PortProbe::Occupied,
        ArtifactCheck::Present,
    );
    assert_eq!(r, StartResolution::Complete(StartStatus::AlreadyRunning));
    assert_eq!(StartStatus::AlreadyRunning.label(), "already-running");
    assert_eq!(s.ref_count, 2);

    // cleanup() -> count = 1, no kill.
    let d = s.cleanup();
    assert_eq!(d, CleanupDecision::NoAction);
    assert_eq!(s.ref_count, 1);
    assert!(s.owns_handle);

    // cleanup() again -> count = 0, process killed, handle cleared.
    let d = s.cleanup();
    assert_eq!(d, CleanupDecision::KillOwned);
    assert_eq!(s.ref_count, 0);
    assert!(!s.owns_handle);
    assert_eq!(cleanup_kill_report(KillOutcome::Killed), Ok(()));

    // stop() after that -> not-running.
    let d = s.stop();
    assert_eq!(d, StopResolution::NoProcess);
    assert_eq!(StopStatus::NotRunning.label(), "not-running");
}

#[test]
fn shared_external_server() {
    // Port pre-occupied by an unrelated process, artifact otherwise
    // valid: shared-external, count = 1, no spawn, store stays empty.
    let mut s = Supervisor::new();
    let r = s.start(None, PortProbe::Occupied, ArtifactCheck::Present);
    assert_eq!(r, StartResolution::Complete(StartStatus::SharedExternal));
    assert_eq!(StartStatus::SharedExternal.label(), "shared-external");
    assert_eq!(s.ref_count, 1);
    assert!(!s.owns_handle);
    assert!(!s.spawn_pending);
}

#[test]
fn shared_external_cleanup_never_kills() {
    // An instance that shares another process's engine holds no handle:
    // even its final cleanup is bookkeeping only.
    let mut s = Supervisor::new();
    s.start(None, PortProbe::Occupied, ArtifactCheck::Present);
    s.start(None, PortProbe::Occupied, ArtifactCheck::Present);
    assert_eq!(s.ref_count, 2);
    assert_eq!(s.cleanup(), CleanupDecision::NoAction);
    assert_eq!(s.ref_count, 1);
    assert_eq!(s.cleanup(), CleanupDecision::NoAction);
    assert_eq!(s.ref_count, 0);
}

#[test]
fn artifact_missing() {
    // Artifact missing at the resolved path: ArtifactNotFound, count
    // unchanged, no process spawned.
    let mut s = Supervisor::new();
    let r = s.start(
        None,
        PortProbe::Free,
        ArtifactCheck::Missing(String::from("/opt/render/engine.jar")),
    );
    assert_eq!(
        r,
        StartResolution::Rejected(SupervisorError::ArtifactNotFound(String::from(
            "/opt/render/engine.jar"
        )))
    );
    assert_eq!(s.ref_count, 0);
    assert!(!s.owns_handle);
    assert!(!s.spawn_pending);
    let e = SupervisorError::ArtifactNotFound(String::from("/opt/render/engine.jar"));
    assert_eq!(
        e.message(),
        "render server artifact not found at: /opt/render/engine.jar"
    );
}

#[test]
fn stop_is_idempotent() {
    let mut s = Supervisor::new();
    let first = s.stop();
    let second = s.stop();
    assert_eq!(first, StopResolution::NoProcess);
    assert_eq!(second, StopResolution::NoProcess);
    assert_eq!(StopStatus::NotRunning.label(), "not-running");
    assert_eq!(s, Supervisor::new());
}

#[test]
fn stop_kills_owned_process() {
    let mut s = Supervisor::new();
    s.start(None, PortProbe::Free, ArtifactCheck::Present);
    s.note_spawn_result(SpawnOutcome::Spawned).unwrap();
    let d = s.stop();
    assert_eq!(d, StopResolution::KillOwned);
    assert!(!s.owns_handle);
    // stop ignores the reference count: the count is untouched.
    assert_eq!(s.ref_count, 1);
    assert_eq!(
        stop_kill_report(KillOutcome::Killed),
        Ok(StopStatus::Stopped)
    );
    assert_eq!(StopStatus::Stopped.label(), "stopped");
}

#[test]
fn liveness_after_external_exit() {
    // A liveness check that finds the engine dead reports false and
    // clears the handle, so the next start spawns fresh.
    let mut s = Supervisor::new();
    s.start(None, PortProbe::Free, ArtifactCheck::Present);
    s.note_spawn_result(SpawnOutcome::Spawned).unwrap();
    let r = s.check_liveness(Some(LivenessProbe::Exited));
    assert_eq!(r, Ok(false));
    assert!(!s.owns_handle);
    let r = s.start(None, PortProbe::Free, ArtifactCheck::Present);
    assert_eq!(r, StartResolution::SpawnRequested);
}

#[test]
fn liveness_of_running_process() {
    let mut s = Supervisor::new();
    s.start(None, PortProbe::Free, ArtifactCheck::Present);
    s.note_spawn_result(SpawnOutcome::Spawned).unwrap();
    assert_eq!(s.check_liveness(Some(LivenessProbe::Running)), Ok(true));
    assert!(s.owns_handle);
}

#[test]
fn liveness_without_handle() {
    let mut s = Supervisor::new();
    assert_eq!(s.check_liveness(None), Ok(false));
    assert_eq!(s, Supervisor::new());
}

#[test]
fn liveness_probe_failure_leaves_handle() {
    let mut s = Supervisor::new();
    s.start(None, PortProbe::Free, ArtifactCheck::Present);
    s.note_spawn_result(SpawnOutcome::Spawned).unwrap();
    let r = s.check_liveness(Some(LivenessProbe::ProbeError(String::from("wait failed"))));
    assert_eq!(
        r,
        Err(SupervisorError::LivenessProbeFailed(String::from(
            "wait failed"
        )))
    );
    assert!(s.owns_handle);
    let e = SupervisorError::LivenessProbeFailed(String::from("wait failed"));
    assert_eq!(
        e.message(),
        "failed to check render server status: wait failed"
    );
}

#[test]
fn start_rejected_on_liveness_probe_failure() {
    let mut s = Supervisor::new();
    s.start(None, PortProbe::Free, ArtifactCheck::Present);
    s.note_spawn_result(SpawnOutcome::Spawned).unwrap();
    let before = s;
    let r = s.start(
        Some(LivenessProbe::ProbeError(String::from("no such process"))),
        PortProbe::Free,
        ArtifactCheck::Present,
    );
    assert_eq!(
        r,
        StartResolution::Rejected(SupervisorError::LivenessProbeFailed(String::from(
            "no such process"
        )))
    );
    assert_eq!(s, before);
}

#[test]
fn spawn_failure_mutates_nothing() {
    let mut s = Supervisor::new();
    let r = s.start(None, PortProbe::Free, ArtifactCheck::Present);
    assert_eq!(r, StartResolution::SpawnRequested);
    let r = s.note_spawn_result(SpawnOutcome::Failed(String::from("no java")));
    assert_eq!(
        r,
        Err(SupervisorError::SpawnFailed(String::from("no java")))
    );
    assert_eq!(s.ref_count, 0);
    assert!(!s.owns_handle);
    assert!(!s.spawn_pending);
    let e = SupervisorError::SpawnFailed(String::from("no java"));
    assert_eq!(e.message(), "failed to start render server: no java");
}

#[test]
fn port_probe_failure_assumes_occupied() {
    // A failed probe never aborts a start: the request is treated as
    // shared-external and the failure only yields a warning.
    let mut s = Supervisor::new();
    let probe = PortProbe::ProbeError(String::from("permission denied"));
    let warning = port_warning(&probe);
    assert_eq!(
        warning,
        Some(SupervisorError::PortProbeFailed(String::from(
            "permission denied"
        )))
    );
    assert_eq!(
        warning.unwrap().message(),
        "error while probing render server port: permission denied"
    );
    let r = s.start(None, probe, ArtifactCheck::Present);
    assert_eq!(r, StartResolution::Complete(StartStatus::SharedExternal));
    assert_eq!(s.ref_count, 1);
    assert!(!s.owns_handle);
    assert_eq!(port_warning(&PortProbe::Free), None);
    assert_eq!(port_warning(&PortProbe::Occupied), None);
}

#[test]
fn cleanup_saturates_at_zero() {
    let mut s = Supervisor::new();
    for _ in 0..5 {
        assert_eq!(s.cleanup(), CleanupDecision::NoAction);
        assert_eq!(s.ref_count, 0);
    }
}

#[test]
fn ref_count_tracks_successful_starts() {
    // Three successful starts against the same external engine, one
    // rejected start in between: the count equals the successes.
    let mut s = Supervisor::new();
    s.start(None, PortProbe::Occupied, ArtifactCheck::Present);
    s.start(None, PortProbe::Occupied, ArtifactCheck::Present);
    let r = s.start(None, PortProbe::Free, ArtifactCheck::Missing(String::from("gone")));
    assert!(matches!(r, StartResolution::Rejected(_)));
    s.start(None, PortProbe::Occupied, ArtifactCheck::Present);
    assert_eq!(s.ref_count, 3);
}

#[test]
fn kill_failure_is_reported_but_handle_stays_cleared() {
    let mut s = Supervisor::new();
    s.start(None, PortProbe::Free, ArtifactCheck::Present);
    s.note_spawn_result(SpawnOutcome::Spawned).unwrap();
    let d = s.cleanup();
    assert_eq!(d, CleanupDecision::KillOwned);
    assert!(!s.owns_handle);
    let r = cleanup_kill_report(KillOutcome::KillError(String::from("gone already")));
    assert_eq!(
        r,
        Err(SupervisorError::KillFailed(String::from("gone already")))
    );
    let e = SupervisorError::KillFailed(String::from("gone already"));
    assert_eq!(e.message(), "failed to stop render server: gone already");
    // The cleared handle means a later start is not blocked.
    let r = s.start(None, PortProbe::Free, ArtifactCheck::Present);
    assert_eq!(r, StartResolution::SpawnRequested);
}

#[test]
fn bind_outcomes_map_to_probes() {
    assert_eq!(port_probe_of_bind(BindOutcome::Bound), PortProbe::Free);
    assert_eq!(
        port_probe_of_bind(BindOutcome::AddrInUse),
        PortProbe::Occupied
    );
    assert_eq!(
        port_probe_of_bind(BindOutcome::BindError(String::from("denied"))),
        PortProbe::ProbeError(String::from("denied"))
    );
}
