//! Render-server supervisor.
//!
//! One long-lived external render engine, listening on a fixed loopback
//! port, is shared by every window of the application and possibly by
//! other application instances on the same machine.  The supervisor
//! decides when that engine is spawned, reused, shared or terminated,
//! and keeps the process-local reference count of its users.
//!
//! The supervisor itself performs no system call.  Each operation is a
//! pure transition: the host observes the world (polls the owned child,
//! probes the port, checks the artifact, attempts the spawn) and hands
//! the observation in; the transition returns the new bookkeeping state
//! together with the action the host must carry out.  Every transition
//! is also available as a `spec` function, so that the laws about whole
//! call sequences can be stated and proved over the very same steps the
//! executable code takes.  Atomicity of a decrement-and-maybe-kill
//! sequence is the host's duty: it must hold its lock around the whole
//! call, which is a single transition here.

use vstd::prelude::*;
use vstd::string::StringExecFns;

verus! {

/// The fixed loopback port the render engine listens on.
pub const RENDER_SERVER_PORT: u16 = 8080;

/// Result of polling the owned child process, supplied by the host.
#[derive(Debug, PartialEq, Eq)]
pub enum LivenessProbe {
    /// The child has not exited.
    Running,
    /// The child has exited.
    Exited,
    /// The poll itself failed; the child's true state is unknown.
    ProbeError(String),
}

/// Result of trying to bind the render port, supplied by the host.
#[derive(Debug, PartialEq, Eq)]
pub enum PortProbe {
    /// The bind succeeded (and was released at once): the port is free.
    Free,
    /// The bind failed because the address is in use.
    Occupied,
    /// The bind failed for another reason.  Probing is advisory only:
    /// the supervisor treats this as "assume occupied" and the host may
    /// surface a warning built by [`port_warning`].
    ProbeError(String),
}

/// Whether the render-engine artifact exists at its resolved location.
#[derive(Debug, PartialEq, Eq)]
pub enum ArtifactCheck {
    Present,
    /// Absent; carries the resolved path for the error message.
    Missing(String),
}

/// Result of the host's attempt to spawn the render engine.
#[derive(Debug, PartialEq, Eq)]
pub enum SpawnOutcome {
    Spawned,
    Failed(String),
}

/// Result of the host's attempt to kill the owned child.
#[derive(Debug, PartialEq, Eq)]
pub enum KillOutcome {
    Killed,
    KillError(String),
}

/// Successful outcomes of a start request.
#[derive(Debug, Clone, Copy, PartialEq, Eq, Structural)]
pub enum StartStatus {
    /// A new engine was spawned; this caller is its first user.
    Started,
    /// The engine this process owns is alive and is reused.
    AlreadyRunning,
    /// The port is held by an engine some other process owns.
    SharedExternal,
}

/// Outcomes of a stop request.
#[derive(Debug, Clone, Copy, PartialEq, Eq, Structural)]
pub enum StopStatus {
    Stopped,
    NotRunning,
}

/// The recoverable errors the supervisor reports.  None is fatal: each
/// carries enough for a user-displayable message (see
/// [`SupervisorError::message`]).
#[derive(Debug, PartialEq, Eq)]
pub enum SupervisorError {
    /// The render-engine artifact is absent; carries the resolved path.
    ArtifactNotFound(String),
    SpawnFailed(String),
    KillFailed(String),
    LivenessProbeFailed(String),
    PortProbeFailed(String),
}

/// What a start request resolved to.
#[derive(Debug, PartialEq, Eq)]
pub enum StartResolution {
    /// The request is finished with a successful status; the reference
    /// count has been incremented.
    Complete(StartStatus),
    /// The port is free and the artifact exists: the host must attempt
    /// the spawn and report it through [`Supervisor::note_spawn_result`].
    SpawnRequested,
    /// The request failed; the bookkeeping state is untouched.
    Rejected(SupervisorError),
}

/// What a stop request asks of the host.
#[derive(Debug, Clone, Copy, PartialEq, Eq, Structural)]
pub enum StopResolution {
    /// A handle was owned; it has been cleared and the host must kill
    /// the child it still holds.
    KillOwned,
    /// No handle was owned; nothing to do.
    NoProcess,
}

/// What a cleanup request asks of the host.
#[derive(Debug, Clone, Copy, PartialEq, Eq, Structural)]
pub enum CleanupDecision {
    /// The count reached zero with a handle owned; the handle has been
    /// cleared and the host must kill the child it still holds.
    KillOwned,
    /// Either other users remain or no handle is owned.
    NoAction,
}

/// The supervisor's whole bookkeeping state: whether the process-wide
/// handle store holds a child handle, how many logical users currently
/// want the engine alive, and whether a requested spawn is still
/// unreported.  The state is plain data; the spec-level transition
/// functions below manipulate it directly.
#[derive(Debug, Clone, Copy, PartialEq, Eq, Structural)]
pub struct Supervisor {
    /// True while the handle store holds a child handle.  The handle may
    /// have died since it was stored; a start or liveness check learns
    /// that from the host's poll.
    pub owns_handle: bool,
    /// Number of logical users counting on the engine.  Never driven
    /// below zero: cleanup saturates.
    pub ref_count: u64,
    /// True between a [`StartResolution::SpawnRequested`] answer and the
    /// host's [`Supervisor::note_spawn_result`] report.
    pub spawn_pending: bool,
}

/// The state the supervisor is constructed with: nothing owned, nobody
/// counted, no spawn in flight.
pub open spec fn initial_supervisor() -> Supervisor {
    Supervisor { owns_handle: false, ref_count: 0u64, spawn_pending: false }
}

/// The port-and-artifact phase of a start request: the branch taken once
/// no live owned engine answers the request.  An occupied port — or a
/// failed probe, which is assumed occupied — means another instance's
/// engine is shared; a free port leads to a spawn if the artifact exists.
pub open spec fn start_probe_step(s: Supervisor, port: PortProbe, artifact: ArtifactCheck) -> (
    Supervisor,
    StartResolution,
) {
    match port {
        PortProbe::Free => match artifact {
            ArtifactCheck::Present => (
                Supervisor { spawn_pending: true, ..s },
                StartResolution::SpawnRequested,
            ),
            ArtifactCheck::Missing(p) => (
                s,
                StartResolution::Rejected(SupervisorError::ArtifactNotFound(p)),
            ),
        },
        _ => (
            Supervisor { ref_count: (s.ref_count + 1) as u64, ..s },
            StartResolution::Complete(StartStatus::SharedExternal),
        ),
    }
}

/// One start request, up to the point where the host must act.  First
/// matching branch wins: a live owned engine is reused; a failed poll of
/// an owned engine rejects the request untouched; otherwise the port and
/// the artifact decide.
pub open spec fn start_step(
    s: Supervisor,
    live: Option<LivenessProbe>,
    port: PortProbe,
    artifact: ArtifactCheck,
) -> (Supervisor, StartResolution) {
    match (s.owns_handle, live) {
        (true, Some(LivenessProbe::Running)) => (
            Supervisor { ref_count: (s.ref_count + 1) as u64, ..s },
            StartResolution::Complete(StartStatus::AlreadyRunning),
        ),
        (true, Some(LivenessProbe::ProbeError(m))) => (
            s,
            StartResolution::Rejected(SupervisorError::LivenessProbeFailed(m)),
        ),
        _ => start_probe_step(s, port, artifact),
    }
}

/// The host's spawn report.  Success makes this caller the single owner:
/// the handle is stored and the count is exactly one.  Failure leaves
/// the bookkeeping as it was.
pub open spec fn spawn_step(s: Supervisor, outcome: SpawnOutcome) -> (
    Supervisor,
    Result<StartStatus, SupervisorError>,
) {
    match outcome {
        SpawnOutcome::Spawned => (
            Supervisor { owns_handle: true, ref_count: 1u64, spawn_pending: false },
            Ok(StartStatus::Started),
        ),
        SpawnOutcome::Failed(m) => (
            Supervisor { spawn_pending: false, ..s },
            Err(SupervisorError::SpawnFailed(m)),
        ),
    }
}

/// An unconditional stop.  It ignores the reference count (a documented
/// sharp edge: a direct stop can leave the count ahead of reality) and
/// is idempotent: with nothing owned it reports so and changes nothing.
pub open spec fn stop_step(s: Supervisor) -> (Supervisor, StopResolution) {
    if s.owns_handle {
        (Supervisor { owns_handle: false, ..s }, StopResolution::KillOwned)
    } else {
        (s, StopResolution::NoProcess)
    }
}

/// A reference-counted cleanup: decrement saturating at zero, and only
/// at zero — and only if a handle is owned — clear the handle and ask
/// the host to kill.  An instance that shares another process's engine
/// owns no handle, so its final cleanup is bookkeeping only.
pub open spec fn cleanup_step(s: Supervisor) -> (Supervisor, CleanupDecision) {
    let c = if s.ref_count > 0 {
        (s.ref_count - 1) as u64
    } else {
        0u64
    };
    if c == 0 && s.owns_handle {
        (Supervisor { owns_handle: false, ref_count: c, ..s }, CleanupDecision::KillOwned)
    } else {
        (Supervisor { ref_count: c, ..s }, CleanupDecision::NoAction)
    }
}

/// A non-blocking liveness check.  A dead handle is cleared on the spot
/// so it cannot be reused; a failed poll leaves the handle in place,
/// since the child's true state is unknown.
pub open spec fn check_step(s: Supervisor, live: Option<LivenessProbe>) -> (
    Supervisor,
    Result<bool, SupervisorError>,
) {
    match (s.owns_handle, live) {
        (true, Some(LivenessProbe::Running)) => (s, Ok(true)),
        (true, Some(LivenessProbe::Exited)) => (
            Supervisor { owns_handle: false, ..s },
            Ok(false),
        ),
        (true, Some(LivenessProbe::ProbeError(m))) => (
            s,
            Err(SupervisorError::LivenessProbeFailed(m)),
        ),
        _ => (s, Ok(false)),
    }
}

impl Supervisor {
    /// A fresh supervisor: no handle, count zero, no spawn in flight.
    pub fn new() -> (s: Supervisor)
        ensures
            s == initial_supervisor(),
    {
        Supervisor { owns_handle: false, ref_count: 0, spawn_pending: false }
    }

    /// Handle a start request, given the host's observations: the poll
    /// of the owned child (meaningful only while a handle is owned) and
    /// the port and artifact probes.  Exactly [`start_step`].
    pub fn start(
        &mut self,
        live: Option<LivenessProbe>,
        port: PortProbe,
        artifact: ArtifactCheck,
    ) -> (r: StartResolution)
        requires
            old(self).ref_count < u64::MAX,
        ensures
            *final(self) == start_step(*old(self), live, port, artifact).0,
            r == start_step(*old(self), live, port, artifact).1,
    {
        if self.owns_handle {
            match live {
                Some(LivenessProbe::Running) => {
                    self.ref_count = self.ref_count + 1;
                    return StartResolution::Complete(StartStatus::AlreadyRunning);
                }
                Some(LivenessProbe::ProbeError(m)) => {
                    return StartResolution::Rejected(SupervisorError::LivenessProbeFailed(m));
                }
                _ => {}
            }
        }
        match port {
            PortProbe::Free => match artifact {
                ArtifactCheck::Present => {
                    self.spawn_pending = true;
                    StartResolution::SpawnRequested
                }
                ArtifactCheck::Missing(p) => {
                    StartResolution::Rejected(SupervisorError::ArtifactNotFound(p))
                }
            },
            _ => {
                self.ref_count = self.ref_count + 1;
                StartResolution::Complete(StartStatus::SharedExternal)
            }
        }
    }

    /// Report the spawn the supervisor requested.  Exactly
    /// [`spawn_step`].
    pub fn note_spawn_result(&mut self, outcome: SpawnOutcome) -> (r: Result<
        StartStatus,
        SupervisorError,
    >)
        ensures
            *final(self) == spawn_step(*old(self), outcome).0,
            r == spawn_step(*old(self), outcome).1,
    {
        match outcome {
            SpawnOutcome::Spawned => {
                self.owns_handle = true;
                self.ref_count = 1;
                self.spawn_pending = false;
                Ok(StartStatus::Started)
            }
            SpawnOutcome::Failed(m) => {
                self.spawn_pending = false;
                Err(SupervisorError::SpawnFailed(m))
            }
        }
    }

    /// Handle an unconditional stop request.  Exactly [`stop_step`].
    pub fn stop(&mut self) -> (r: StopResolution)
        ensures
            *final(self) == stop_step(*old(self)).0,
            r == stop_step(*old(self)).1,
    {
        if self.owns_handle {
            self.owns_handle = false;
            StopResolution::KillOwned
        } else {
            StopResolution::NoProcess
        }
    }

    /// Handle a cleanup request (one per closing window).  Exactly
    /// [`cleanup_step`].
    pub fn cleanup(&mut self) -> (r: CleanupDecision)
        ensures
            *final(self) == cleanup_step(*old(self)).0,
            r == cleanup_step(*old(self)).1,
    {
        if self.ref_count > 0 {
            self.ref_count = self.ref_count - 1;
        }
        if self.ref_count == 0 && self.owns_handle {
            self.owns_handle = false;
            CleanupDecision::KillOwned
        } else {
            CleanupDecision::NoAction
        }
    }

    /// Handle a liveness query, given the host's poll of the owned
    /// child.  Exactly [`check_step`].
    pub fn check_liveness(&mut self, live: Option<LivenessProbe>) -> (r: Result<
        bool,
        SupervisorError,
    >)
        ensures
            *final(self) == check_step(*old(self), live).0,
            r == check_step(*old(self), live).1,
    {
        if self.owns_handle {
            match live {
                Some(LivenessProbe::Running) => Ok(true),
                Some(LivenessProbe::Exited) => {
                    self.owns_handle = false;
                    Ok(false)
                }
                Some(LivenessProbe::ProbeError(m)) => {
                    Err(SupervisorError::LivenessProbeFailed(m))
                }
                None => Ok(false),
            }
        } else {
            Ok(false)
        }
    }
}

/// The user-displayable status tokens of a start request.
pub open spec fn start_label_spec(st: StartStatus) -> Seq<char> {
    match st {
        StartStatus::Started => "started"@,
        StartStatus::AlreadyRunning => "already-running"@,
        StartStatus::SharedExternal => "shared-external"@,
    }
}

/// The user-displayable status tokens of a stop request.
pub open spec fn stop_label_spec(st: StopStatus) -> Seq<char> {
    match st {
        StopStatus::Stopped => "stopped"@,
        StopStatus::NotRunning => "not-running"@,
    }
}

/// The user-displayable text of each error.
pub open spec fn error_message_spec(e: SupervisorError) -> Seq<char> {
    match e {
        SupervisorError::ArtifactNotFound(p) => "render server artifact not found at: "@ + p@,
        SupervisorError::SpawnFailed(m) => "failed to start render server: "@ + m@,
        SupervisorError::KillFailed(m) => "failed to stop render server: "@ + m@,
        SupervisorError::LivenessProbeFailed(m) => "failed to check render server status: "@ + m@,
        SupervisorError::PortProbeFailed(m) => "error while probing render server port: "@ + m@,
    }
}

impl StartStatus {
    /// The status token shown to the user.
    pub fn label(&self) -> (r: String)
        ensures
            r@ == start_label_spec(*self),
    {
        match self {
            StartStatus::Started => String::from_str("started"),
            StartStatus::AlreadyRunning => String::from_str("already-running"),
            StartStatus::SharedExternal => String::from_str("shared-external"),
        }
    }
}

impl StopStatus {
    /// The status token shown to the user.
    pub fn label(&self) -> (r: String)
        ensures
            r@ == stop_label_spec(*self),
    {
        match self {
            StopStatus::Stopped => String::from_str("stopped"),
            StopStatus::NotRunning => String::from_str("not-running"),
        }
    }
}

impl SupervisorError {
    /// The descriptive text shown to the user.
    pub fn message(&self) -> (r: String)
        ensures
            r@ == error_message_spec(*self),
    {
        match self {
            SupervisorError::ArtifactNotFound(p) => String::from_str(
                "render server artifact not found at: ",
            ).concat(p.as_str()),
            SupervisorError::SpawnFailed(m) => String::from_str(
                "failed to start render server: ",
            ).concat(m.as_str()),
            SupervisorError::KillFailed(m) => String::from_str(
                "failed to stop render server: ",
            ).concat(m.as_str()),
            SupervisorError::LivenessProbeFailed(m) => String::from_str(
                "failed to check render server status: ",
            ).concat(m.as_str()),
            SupervisorError::PortProbeFailed(m) => String::from_str(
                "error while probing render server port: ",
            ).concat(m.as_str()),
        }
    }
}

/// Classify the host's attempt to bind the render port.
#[derive(Debug, PartialEq, Eq)]
pub enum BindOutcome {
    /// The bind succeeded and the listener was dropped at once.
    Bound,
    /// The bind failed because the address is in use.
    AddrInUse,
    /// The bind failed for any other reason.
    BindError(String),
}

/// Turn a bind attempt into a port probe: success means free, an
/// address-in-use failure means occupied, anything else is a probe
/// error, assumed occupied by the start transition.
pub fn port_probe_of_bind(b: BindOutcome) -> (p: PortProbe)
    ensures
        p == (match b {
            BindOutcome::Bound => PortProbe::Free,
            BindOutcome::AddrInUse => PortProbe::Occupied,
            BindOutcome::BindError(m) => PortProbe::ProbeError(m),
        }),
{
    match b {
        BindOutcome::Bound => PortProbe::Free,
        BindOutcome::AddrInUse => PortProbe::Occupied,
        BindOutcome::BindError(m) => PortProbe::ProbeError(m),
    }
}

/// The advisory warning a failed port probe carries; a clean probe
/// warns of nothing.  Probing never makes a start request fail.
pub fn port_warning(p: &PortProbe) -> (w: Option<SupervisorError>)
    ensures
        w == (match *p {
            PortProbe::ProbeError(m) => Some(SupervisorError::PortProbeFailed(m)),
            _ => None::<SupervisorError>,
        }),
{
    match p {
        PortProbe::ProbeError(m) => Some(SupervisorError::PortProbeFailed(m.clone())),
        _ => None,
    }
}

/// Map the kill attempt a stop request led to onto the stop outcome:
/// the handle is already cleared either way, so a failed kill is
/// reported but not retried.
pub fn stop_kill_report(k: KillOutcome) -> (r: Result<StopStatus, SupervisorError>)
    ensures
        r == (match k {
            KillOutcome::Killed => Ok::<StopStatus, SupervisorError>(StopStatus::Stopped),
            KillOutcome::KillError(m) => Err::<StopStatus, SupervisorError>(
                SupervisorError::KillFailed(m),
            ),
        }),
{
    match k {
        KillOutcome::Killed => Ok(StopStatus::Stopped),
        KillOutcome::KillError(m) => Err(SupervisorError::KillFailed(m)),
    }
}

/// Everything the environment contributes to one complete start
/// request: the poll of the owned child, the port probe, the artifact
/// check, and — where the supervisor asks for one — the spawn attempt.
pub struct StartEvent {
    pub live: Option<LivenessProbe>,
    pub port: PortProbe,
    pub artifact: ArtifactCheck,
    pub spawn: SpawnOutcome,
}

/// One complete start request: [`start_step`], followed by
/// [`spawn_step`] where a spawn was requested.
pub open spec fn start_run(s: Supervisor, ev: StartEvent) -> (
    Supervisor,
    Result<StartStatus, SupervisorError>,
) {
    match start_step(s, ev.live, ev.port, ev.artifact).1 {
        StartResolution::Complete(st) => (start_step(s, ev.live, ev.port, ev.artifact).0, Ok(st)),
        StartResolution::Rejected(e) => (start_step(s, ev.live, ev.port, ev.artifact).0, Err(e)),
        StartResolution::SpawnRequested => spawn_step(
            start_step(s, ev.live, ev.port, ev.artifact).0,
            ev.spawn,
        ),
    }
}

/// The state after a sequence of complete start requests.
pub open spec fn run_starts(s: Supervisor, evs: Seq<StartEvent>) -> Supervisor
    decreases evs.len(),
{
    if evs.len() == 0 {
        s
    } else {
        run_starts(start_run(s, evs[0]).0, evs.drop_first())
    }
}

/// How many of a sequence of complete start requests returned a
/// non-error status.
pub open spec fn successful_starts(s: Supervisor, evs: Seq<StartEvent>) -> nat
    decreases evs.len(),
{
    if evs.len() == 0 {
        0nat
    } else {
        (if start_run(s, evs[0]).1 is Ok {
            1nat
        } else {
            0nat
        }) + successful_starts(start_run(s, evs[0]).0, evs.drop_first())
    }
}

/// The environment holds still for one request: an engine this process
/// owns has not died, and an external engine that earlier requests were
/// counted against still occupies the port.
pub open spec fn steady_environment(s: Supervisor, ev: StartEvent) -> bool {
    &&& s.owns_handle ==> ev.live == Some(LivenessProbe::Running)
    &&& !s.owns_handle && s.ref_count > 0 ==> !(ev.port is Free)
}

proof fn lemma_run_starts_take_shift(s: Supervisor, evs: Seq<StartEvent>, i: int)
    requires
        0 <= i,
        i + 1 <= evs.len(),
    ensures
        run_starts(s, evs.take(i + 1)) == run_starts(
            start_run(s, evs[0]).0,
            evs.drop_first().take(i),
        ),
{
    assert(evs.take(i + 1)[0] == evs[0]);
    assert(evs.take(i + 1).drop_first() =~= evs.drop_first().take(i));
}

/// Law: over any sequence of start requests with no intervening cleanup,
/// as long as the environment holds still (see [`steady_environment`]),
/// the reference count grows by exactly the number of requests that
/// returned a non-error status.  In particular, from a fresh supervisor
/// the count equals that number.  (The bound on the sequence's length
/// only keeps the count within its machine word.)
pub proof fn lemma_ref_count_tracks_starts(s: Supervisor, evs: Seq<StartEvent>)
    requires
        !s.spawn_pending,
        s.ref_count + evs.len() <= u64::MAX,
        forall|i: int|
            0 <= i < evs.len() ==> #[trigger] steady_environment(
                run_starts(s, evs.take(i)),
                evs[i],
            ),
    ensures
        run_starts(s, evs).ref_count == s.ref_count + successful_starts(s, evs),
        !run_starts(s, evs).spawn_pending,
    decreases evs.len(),
{
    if evs.len() > 0 {
        assert(evs.take(0) =~= Seq::<StartEvent>::empty());
        assert(steady_environment(run_starts(s, evs.take(0)), evs[0]));
        let s1 = start_run(s, evs[0]).0;
        let tail = evs.drop_first();
        assert(s1.ref_count == s.ref_count + (if start_run(s, evs[0]).1 is Ok {
            1int
        } else {
            0int
        }));
        assert forall|i: int|
            0 <= i < tail.len() implies #[trigger] steady_environment(
            run_starts(s1, tail.take(i)),
            tail[i],
        ) by {
            lemma_run_starts_take_shift(s, evs, i);
            assert(steady_environment(run_starts(s, evs.take(i + 1)), evs[i + 1]));
        }
        lemma_ref_count_tracks_starts(s1, tail);
    }
}

/// The state after a number of cleanup requests.
pub open spec fn run_cleanups(s: Supervisor, n: nat) -> Supervisor
    decreases n,
{
    if n == 0 {
        s
    } else {
        run_cleanups(cleanup_step(s).0, (n - 1) as nat)
    }
}

/// Law: cleanup never drives the reference count below zero.  However
/// many cleanup requests arrive, and in whatever state, the count
/// saturates at zero instead of underflowing.
pub proof fn lemma_cleanup_saturates(s: Supervisor, n: nat)
    ensures
        run_cleanups(s, n).ref_count == if n >= s.ref_count {
            0int
        } else {
            s.ref_count - n
        },
    decreases n,
{
    if n > 0 {
        lemma_cleanup_saturates(cleanup_step(s).0, (n - 1) as nat);
    }
}

/// Law: a cleanup asks the host to terminate the engine exactly when it
/// brings the count to zero while a handle is owned; while the count
/// stays positive no termination is attempted.
pub proof fn lemma_cleanup_kills_exactly_at_zero(s: Supervisor)
    ensures
        (cleanup_step(s).1 == CleanupDecision::KillOwned) <==> (cleanup_step(s).0.ref_count == 0
            && s.owns_handle),
        cleanup_step(s).0.ref_count > 0 ==> cleanup_step(s).1 == CleanupDecision::NoAction,
{
}

/// Law: stop is idempotent.  A stop right after a stop — and in general
/// any stop in a state that owns no process — reports `not-running`,
/// changes nothing, and raises no error.
pub proof fn lemma_stop_idempotent(s: Supervisor)
    ensures
        stop_step(stop_step(s).0).1 == StopResolution::NoProcess,
        stop_step(stop_step(s).0).0 == stop_step(s).0,
        !s.owns_handle ==> stop_step(s).1 == StopResolution::NoProcess && stop_step(s).0 == s,
{
}

/// Law: a liveness check that finds the owned engine dead reports
/// `false` and clears the handle, so a following start request does not
/// reuse the stale handle: with the port free and the artifact present
/// it asks for a fresh spawn.
pub proof fn lemma_dead_handle_never_reused(s: Supervisor)
    requires
        s.owns_handle,
    ensures
        check_step(s, Some(LivenessProbe::Exited)).1 == Ok::<bool, SupervisorError>(false),
        !check_step(s, Some(LivenessProbe::Exited)).0.owns_handle,
        start_step(
            check_step(s, Some(LivenessProbe::Exited)).0,
            None,
            PortProbe::Free,
            ArtifactCheck::Present,
        ).1 == StartResolution::SpawnRequested,
{
}

/// Map the kill attempt a cleanup led to onto the cleanup outcome;
/// best-effort, as for [`stop_kill_report`].
pub fn cleanup_kill_report(k: KillOutcome) -> (r: Result<(), SupervisorError>)
    ensures
        r == (match k {
            KillOutcome::Killed => Ok::<(), SupervisorError>(()),
            KillOutcome::KillError(m) => Err::<(), SupervisorError>(
                SupervisorError::KillFailed(m),
            ),
        }),
{
    match k {
        KillOutcome::Killed => Ok(()),
        KillOutcome::KillError(m) => Err(SupervisorError::KillFailed(m)),
    }
}

} // verus!
