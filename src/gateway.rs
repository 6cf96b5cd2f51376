//! The gateway supervisor's state machine. Every transition is a method on
//! `GatewayRuntime`; the caller owns the child process, performs the I/O
//! (spawn, signal, wait, health probe) outside the lock, and reports what it
//! saw back through these methods.

use vstd::prelude::*;
use vstd::string::StringExecFns;

use crate::text::{decimal, push_decimal, push_str, string_of};

verus! {

/// The port the gateway listens on unless told otherwise.
pub const DEFAULT_GATEWAY_PORT: u16 = 18_789;

/// Probes made while waiting for a fresh gateway to become healthy.
pub const READINESS_ATTEMPTS: u32 = 30;

/// Consecutive failed probes after which a running gateway is in error.
pub const MAX_FAILED_CHECKS: u8 = 3;

/// How long a stop waits for the process to exit before killing it.
pub const STOP_GRACE_MS: u64 = 5_000;

#[derive(Clone, Copy, PartialEq, Eq, Structural)]
pub enum GatewayState {
    Stopped,
    Starting,
    Running,
    Stopping,
    Error,
}

pub open spec fn state_name(s: GatewayState) -> Seq<char> {
    match s {
        GatewayState::Stopped => "stopped"@,
        GatewayState::Starting => "starting"@,
        GatewayState::Running => "running"@,
        GatewayState::Stopping => "stopping"@,
        GatewayState::Error => "error"@,
    }
}

/// The name under which a state is reported.
pub fn state_label(s: GatewayState) -> (r: String)
    ensures
        r@ == state_name(s),
{
    match s {
        GatewayState::Stopped => String::from_str("stopped"),
        GatewayState::Starting => String::from_str("starting"),
        GatewayState::Running => String::from_str("running"),
        GatewayState::Stopping => String::from_str("stopping"),
        GatewayState::Error => String::from_str("error"),
    }
}

/// A snapshot of the gateway as reported to callers.
pub struct GatewayStatus {
    pub state: String,
    pub pid: Option<u32>,
    pub port: u16,
    pub uptime_secs: Option<u64>,
    pub error: Option<String>,
}

/// The address of the gateway's web chat on `port`.
pub fn webchat_url(port: u16) -> (r: String)
    ensures
        r@ == "http://127.0.0.1:"@ + decimal(port as nat),
{
    let mut out: Vec<char> = Vec::new();
    push_str(&mut out, "http://127.0.0.1:");
    push_decimal(&mut out, port as u64);
    string_of(out.as_slice())
}

/// One line of gateway output, tagged with its stream and time.
pub struct GatewayLog {
    pub line: String,
    pub level: String,
    pub timestamp: String,
}

/// What the caller found when it asked the operating system about the child.
pub enum ProcessObservation {
    /// Still running.
    Alive,
    /// Exited; `status` is the exit status as text.
    Exited { success: bool, status: String },
    /// Its state could not be read.
    Uninspectable { reason: String },
}

/// The supervisor's shared state. `has_child` says whether a child process
/// is held; `started_at_ms` is when it was spawned, on a monotonic clock.
pub struct GatewayRuntime {
    pub state: GatewayState,
    pub pid: Option<u32>,
    pub port: u16,
    pub error: Option<String>,
    pub started_at_ms: Option<u64>,
    pub has_child: bool,
}

/// `GatewayRuntime` with its strings as character sequences.
pub struct GatewayView {
    pub state: GatewayState,
    pub pid: Option<u32>,
    pub port: u16,
    pub error: Option<Seq<char>>,
    pub started_at_ms: Option<u64>,
    pub has_child: bool,
}

pub open spec fn opt_view(s: Option<String>) -> Option<Seq<char>> {
    match s {
        Some(t) => Some(t@),
        None => None,
    }
}

impl View for GatewayRuntime {
    type V = GatewayView;

    open spec fn view(&self) -> GatewayView {
        GatewayView {
            state: self.state,
            pid: self.pid,
            port: self.port,
            error: opt_view(self.error),
            started_at_ms: self.started_at_ms,
            has_child: self.has_child,
        }
    }
}

pub open spec fn initial_view() -> GatewayView {
    GatewayView {
        state: GatewayState::Stopped,
        pid: None,
        port: DEFAULT_GATEWAY_PORT,
        error: None,
        started_at_ms: None,
        has_child: false,
    }
}

/// `v` with a new state, pid, port and error; the start time is kept only
/// where asked.
pub open spec fn with_state(
    v: GatewayView,
    state: GatewayState,
    pid: Option<u32>,
    port: u16,
    error: Option<Seq<char>>,
    keep_start_time: bool,
) -> GatewayView {
    GatewayView {
        state,
        pid,
        port,
        error,
        started_at_ms: if keep_start_time {
            v.started_at_ms
        } else {
            None
        },
        has_child: v.has_child,
    }
}

pub open spec fn without_child(v: GatewayView) -> GatewayView {
    GatewayView { has_child: false, ..v }
}

pub open spec fn exit_message(status: Seq<char>) -> Seq<char> {
    "gateway exited unexpectedly with status "@ + status
}

pub open spec fn inspect_message(reason: Seq<char>) -> Seq<char> {
    "failed to inspect gateway process state: "@ + reason
}

pub open spec fn timeout_message() -> Seq<char> {
    "gateway did not become healthy within 60 seconds"@
}

pub open spec fn unhealthy_message() -> Seq<char> {
    "gateway health checks failed repeatedly"@
}

pub open spec fn already_running_message() -> Seq<char> {
    "gateway already running"@
}

/// The state once an observation of the child has been taken into account:
/// an exit during a stop, or a clean exit, stops the gateway; any other exit,
/// or a child that cannot be inspected, puts it in error. Without a child,
/// or with a live one, nothing changes.
///
/// This is the reconciliation of the readiness wait and of the status
/// query. The health monitor uses `monitor_observe_spec` instead.
pub open spec fn observe_spec(v: GatewayView, obs: ProcessObservation) -> GatewayView {
    if !v.has_child {
        v
    } else {
        match obs {
            ProcessObservation::Alive => v,
            ProcessObservation::Exited { success, status } => if v.state == GatewayState::Stopping
                || success {
                with_state(without_child(v), GatewayState::Stopped, None, v.port, None, false)
            } else {
                with_state(
                    without_child(v),
                    GatewayState::Error,
                    None,
                    v.port,
                    Some(exit_message(status@)),
                    false,
                )
            },
            ProcessObservation::Uninspectable { reason } => with_state(
                without_child(v),
                GatewayState::Error,
                None,
                v.port,
                Some(inspect_message(reason@)),
                false,
            ),
        }
    }
}

/// The health monitor's reconciliation: while a gateway is supervised, any
/// exit of its child that no stop asked for is a failure, even a clean one;
/// an exit during a stop stops it. A child that cannot be inspected is in
/// error. Without a child, or with a live one, nothing changes.
pub open spec fn monitor_observe_spec(v: GatewayView, obs: ProcessObservation) -> GatewayView {
    if !v.has_child {
        v
    } else {
        match obs {
            ProcessObservation::Alive => v,
            ProcessObservation::Exited { success, status } => if v.state == GatewayState::Stopping {
                with_state(without_child(v), GatewayState::Stopped, None, v.port, None, false)
            } else {
                with_state(
                    without_child(v),
                    GatewayState::Error,
                    None,
                    v.port,
                    Some(exit_message(status@)),
                    false,
                )
            },
            ProcessObservation::Uninspectable { reason } => with_state(
                without_child(v),
                GatewayState::Error,
                None,
                v.port,
                Some(inspect_message(reason@)),
                false,
            ),
        }
    }
}

/// Whether a start is refused: a child is held and is starting or running.
pub open spec fn start_refused(v: GatewayView) -> bool {
    v.has_child && (v.state == GatewayState::Starting || v.state == GatewayState::Running)
}

/// The state once a start has been accepted, before the spawn.
pub open spec fn start_spec(v: GatewayView, port: u16) -> GatewayView {
    with_state(v, GatewayState::Starting, None, port, None, false)
}

/// The state once the child has been spawned at `now`.
pub open spec fn spawned_spec(v: GatewayView, pid: u32, port: u16, now: u64) -> GatewayView {
    GatewayView {
        state: GatewayState::Starting,
        pid: Some(pid),
        port,
        error: None,
        started_at_ms: Some(now),
        has_child: true,
    }
}

/// Compare-and-set: `from` becomes `to` with `error`; any other state stays.
pub open spec fn promote_spec(
    v: GatewayView,
    from: GatewayState,
    to: GatewayState,
    error: Option<Seq<char>>,
) -> GatewayView {
    if v.state == from {
        GatewayView { state: to, error, ..v }
    } else {
        v
    }
}

/// The state once a stop has taken the child (if any) out of the runtime.
pub open spec fn begin_stop_spec(v: GatewayView) -> GatewayView {
    if !v.has_child {
        with_state(v, GatewayState::Stopped, None, v.port, None, false)
    } else {
        with_state(without_child(v), GatewayState::Stopping, v.pid, v.port, None, true)
    }
}

/// The state once a stop has finished.
pub open spec fn finish_stop_spec(v: GatewayView) -> GatewayView {
    with_state(v, GatewayState::Stopped, None, v.port, None, false)
}

/// Seconds since `started` at `now`, zero where the clock reads earlier.
pub open spec fn elapsed_secs(started: u64, now: u64) -> u64 {
    if now >= started {
        ((now - started) / 1000) as u64
    } else {
        0
    }
}

impl GatewayRuntime {
    /// A stopped gateway on the default port, with no child.
    pub fn new() -> (r: Self)
        ensures
            r@ == initial_view(),
    {
        GatewayRuntime {
            state: GatewayState::Stopped,
            pid: None,
            port: DEFAULT_GATEWAY_PORT,
            error: None,
            started_at_ms: None,
            has_child: false,
        }
    }

    /// The status reported at `now_ms`: uptime is given only while starting
    /// or running, counted from the spawn.
    pub fn snapshot(&self, now_ms: u64) -> (r: GatewayStatus)
        ensures
            r.state@ == state_name(self.state),
            r.pid == self.pid,
            r.port == self.port,
            opt_view(r.error) == opt_view(self.error),
            r.uptime_secs == (match self.started_at_ms {
                Some(t) => if self.state == GatewayState::Running || self.state
                    == GatewayState::Starting {
                    Some(elapsed_secs(t, now_ms))
                } else {
                    None
                },
                None => None,
            }),
    {
        let uptime_secs = match self.started_at_ms {
            Some(t) => {
                if self.state == GatewayState::Running || self.state == GatewayState::Starting {
                    if now_ms >= t {
                        Some((now_ms - t) / 1000)
                    } else {
                        Some(0)
                    }
                } else {
                    None
                }
            },
            None => None,
        };
        let error = match &self.error {
            Some(e) => Some(e.clone()),
            None => None,
        };
        GatewayStatus { state: state_label(self.state), pid: self.pid, port: self.port, uptime_secs, error }
    }

    pub fn set_state(
        &mut self,
        state: GatewayState,
        pid: Option<u32>,
        port: u16,
        error: Option<String>,
        keep_start_time: bool,
    )
        ensures
            final(self)@ == with_state(old(self)@, state, pid, port, opt_view(error), keep_start_time),
    {
        self.state = state;
        self.pid = pid;
        self.port = port;
        self.error = error;
        if !keep_start_time {
            self.started_at_ms = None;
        }
    }

    /// Takes an observation of the child into account.
    pub fn refresh_process_state(&mut self, obs: ProcessObservation)
        ensures
            final(self)@ == observe_spec(old(self)@, obs),
    {
        if !self.has_child {
            return;
        }
        match obs {
            ProcessObservation::Alive => {},
            ProcessObservation::Exited { success, status } => {
                self.has_child = false;
                let port = self.port;
                if self.state == GatewayState::Stopping || success {
                    self.set_state(GatewayState::Stopped, None, port, None, false);
                } else {
                    let mut m = String::from_str("gateway exited unexpectedly with status ");
                    m.append(status.as_str());
                    self.set_state(GatewayState::Error, None, port, Some(m), false);
                }
            },
            ProcessObservation::Uninspectable { reason } => {
                self.has_child = false;
                let port = self.port;
                let mut m = String::from_str("failed to inspect gateway process state: ");
                m.append(reason.as_str());
                self.set_state(GatewayState::Error, None, port, Some(m), false);
            },
        }
    }

    /// Takes an observation of the child into account on behalf of the
    /// health monitor, for which only an exit asked for by a stop is clean.
    pub fn refresh_while_monitoring(&mut self, obs: ProcessObservation)
        ensures
            final(self)@ == monitor_observe_spec(old(self)@, obs),
    {
        if !self.has_child {
            return;
        }
        match obs {
            ProcessObservation::Alive => {},
            ProcessObservation::Exited { success: _, status } => {
                self.has_child = false;
                let port = self.port;
                if self.state == GatewayState::Stopping {
                    self.set_state(GatewayState::Stopped, None, port, None, false);
                } else {
                    let mut m = String::from_str("gateway exited unexpectedly with status ");
                    m.append(status.as_str());
                    self.set_state(GatewayState::Error, None, port, Some(m), false);
                }
            },
            ProcessObservation::Uninspectable { reason } => {
                self.has_child = false;
                let port = self.port;
                let mut m = String::from_str("failed to inspect gateway process state: ");
                m.append(reason.as_str());
                self.set_state(GatewayState::Error, None, port, Some(m), false);
            },
        }
    }

    /// The status query: reconciles with the child's actual state first, so
    /// that an exit shows at once, then reports.
    pub fn status(&mut self, obs: ProcessObservation, now_ms: u64) -> (r: GatewayStatus)
        ensures
            final(self)@ == observe_spec(old(self)@, obs),
            r.state@ == state_name(final(self).state),
            r.pid == final(self).pid,
            r.port == final(self).port,
            opt_view(r.error) == opt_view(final(self).error),
            r.uptime_secs == (match final(self).started_at_ms {
                Some(t) => if final(self).state == GatewayState::Running || final(self).state
                    == GatewayState::Starting {
                    Some(elapsed_secs(t, now_ms))
                } else {
                    None
                },
                None => None,
            }),
    {
        self.refresh_process_state(obs);
        self.snapshot(now_ms)
    }

    /// Accepts or refuses a start on `port`, after the caller has reconciled
    /// the state. An accepted start leaves the gateway starting, with no pid.
    pub fn begin_start(&mut self, port: u16) -> (r: Result<(), String>)
        ensures
            r is Err == start_refused(old(self)@),
            r matches Err(m) ==> m@ == already_running_message() && final(self)@ == old(self)@,
            r is Ok ==> final(self)@ == start_spec(old(self)@, port),
    {
        if self.has_child && (self.state == GatewayState::Starting || self.state
            == GatewayState::Running) {
            return Err(String::from_str("gateway already running"));
        }
        self.set_state(GatewayState::Starting, None, port, None, false);
        Ok(())
    }

    /// Records a failed spawn: the gateway is in error with the reason.
    /// Returns the message, which names the program that could not be run.
    pub fn spawn_failed(&mut self, port: u16, program: &str, reason: &str) -> (r: String)
        ensures
            r@ == "failed to spawn gateway with "@ + program@ + ": "@ + reason@,
            final(self)@ == with_state(
                old(self)@,
                GatewayState::Error,
                None,
                port,
                Some(r@),
                false,
            ),
    {
        let mut m = String::from_str("failed to spawn gateway with ");
        m.append(program);
        m.append(": ");
        m.append(reason);
        self.set_state(GatewayState::Error, None, port, Some(m.clone()), false);
        m
    }

    /// Records a spawned child with `pid`, started at `now_ms`.
    pub fn spawned(&mut self, pid: u32, port: u16, now_ms: u64)
        ensures
            final(self)@ == spawned_spec(old(self)@, pid, port, now_ms),
    {
        self.has_child = true;
        self.started_at_ms = Some(now_ms);
        self.set_state(GatewayState::Starting, Some(pid), port, None, true);
    }

    /// A health probe succeeded while waiting: a gateway still starting is
    /// now running. Returns whether the state changed.
    pub fn mark_running(&mut self) -> (r: bool)
        ensures
            r == (old(self).state == GatewayState::Starting),
            final(self)@ == promote_spec(old(self)@, GatewayState::Starting, GatewayState::Running, None),
    {
        if self.state == GatewayState::Starting {
            self.state = GatewayState::Running;
            self.error = None;
            true
        } else {
            false
        }
    }

    /// The wait for health ran out: a gateway still starting is in error.
    pub fn mark_start_timeout(&mut self) -> (r: bool)
        ensures
            r == (old(self).state == GatewayState::Starting),
            final(self)@ == promote_spec(
                old(self)@,
                GatewayState::Starting,
                GatewayState::Error,
                Some(timeout_message()),
            ),
    {
        if self.state == GatewayState::Starting {
            self.state = GatewayState::Error;
            self.error = Some(String::from_str("gateway did not become healthy within 60 seconds"));
            true
        } else {
            false
        }
    }

    /// Health checks failed repeatedly: a running gateway is in error.
    pub fn mark_unhealthy(&mut self) -> (r: bool)
        ensures
            r == (old(self).state == GatewayState::Running),
            final(self)@ == promote_spec(
                old(self)@,
                GatewayState::Running,
                GatewayState::Error,
                Some(unhealthy_message()),
            ),
    {
        if self.state == GatewayState::Running {
            self.state = GatewayState::Error;
            self.error = Some(String::from_str("gateway health checks failed repeatedly"));
            true
        } else {
            false
        }
    }

    /// Begins a stop, after the caller has reconciled the state. Returns
    /// whether there is a child to terminate; if so the gateway is stopping
    /// and the caller now owns the child, else it is simply stopped.
    pub fn begin_stop(&mut self) -> (r: bool)
        ensures
            r == old(self).has_child,
            final(self)@ == begin_stop_spec(old(self)@),
    {
        if !self.has_child {
            let port = self.port;
            self.set_state(GatewayState::Stopped, None, port, None, false);
            return false;
        }
        self.has_child = false;
        let port = self.port;
        let pid = self.pid;
        self.set_state(GatewayState::Stopping, pid, port, None, true);
        true
    }

    /// Ends a stop, whatever became of the child.
    pub fn finish_stop(&mut self)
        ensures
            final(self)@ == finish_stop_spec(old(self)@),
    {
        let port = self.port;
        self.set_state(GatewayState::Stopped, None, port, None, false);
    }
}

/// The readiness wait after one probe, from `attempts` probes already made:
/// a healthy probe promotes a starting gateway and ends the wait; otherwise
/// the child is observed, and the wait ends if it is gone, or if this was
/// the last allowed probe, in which case a gateway still starting is in
/// error. Gives the new count, the new state, and whether the wait ended.
pub open spec fn readiness_step(
    attempts: u32,
    v: GatewayView,
    healthy: bool,
    obs: ProcessObservation,
) -> (u32, GatewayView, bool) {
    if healthy {
        (attempts, promote_spec(v, GatewayState::Starting, GatewayState::Running, None), true)
    } else {
        let w = observe_spec(v, obs);
        if w.state == GatewayState::Stopped || w.state == GatewayState::Error {
            (attempts, w, true)
        } else if attempts + 1 >= READINESS_ATTEMPTS {
            (
                (attempts + 1) as u32,
                promote_spec(w, GatewayState::Starting, GatewayState::Error, Some(timeout_message())),
                true,
            )
        } else {
            ((attempts + 1) as u32, w, false)
        }
    }
}

/// Waits for a freshly spawned gateway to answer its health probe.
pub struct ReadinessWatch {
    pub attempts: u32,
}

impl ReadinessWatch {
    pub fn new() -> (r: Self)
        ensures
            r.attempts == 0,
    {
        ReadinessWatch { attempts: 0 }
    }

    /// Takes one probe result, and an observation of the child made after
    /// it, into account. Returns whether the wait is over; if not, the caller
    /// sleeps and probes again.
    pub fn after_probe(
        &mut self,
        rt: &mut GatewayRuntime,
        healthy: bool,
        obs: ProcessObservation,
    ) -> (finished: bool)
        requires
            old(self).attempts < READINESS_ATTEMPTS,
        ensures
            (final(self).attempts, final(rt)@, finished) == readiness_step(
                old(self).attempts,
                old(rt)@,
                healthy,
                obs,
            ),
    {
        if healthy {
            rt.mark_running();
            return true;
        }
        rt.refresh_process_state(obs);
        if rt.state == GatewayState::Stopped || rt.state == GatewayState::Error {
            return true;
        }
        self.attempts = self.attempts + 1;
        if self.attempts >= READINESS_ATTEMPTS {
            rt.mark_start_timeout();
            return true;
        }
        false
    }
}

/// The readiness wait after `n` probes that all fail while the child stays
/// alive, stopping at the first step that ends it.
pub open spec fn unhealthy_run(attempts: u32, v: GatewayView, n: nat) -> (u32, GatewayView, bool)
    decreases n,
{
    if n == 0 {
        (attempts, v, false)
    } else {
        let prev = unhealthy_run(attempts, v, (n - 1) as nat);
        if prev.2 {
            prev
        } else {
            readiness_step(prev.0, prev.1, false, ProcessObservation::Alive)
        }
    }
}

proof fn lemma_unhealthy_prefix(v: GatewayView, k: nat)
    requires
        v.state == GatewayState::Starting,
        k < READINESS_ATTEMPTS,
    ensures
        unhealthy_run(0, v, k) == (k as u32, v, false),
    decreases k,
{
    if k > 0 {
        lemma_unhealthy_prefix(v, (k - 1) as nat);
    }
}

/// A start from `stopped` passes through `starting`; if no health probe ever
/// succeeds, the wait goes on for exactly `READINESS_ATTEMPTS` probes and
/// then leaves the gateway in error with the timeout message.
pub proof fn lemma_never_healthy_start_times_out(v: GatewayView, port: u16, pid: u32, now: u64)
    requires
        v.state == GatewayState::Stopped,
    ensures
        !start_refused(v),
        start_spec(v, port).state == GatewayState::Starting,
        spawned_spec(start_spec(v, port), pid, port, now).state == GatewayState::Starting,
        forall|k: nat|
            k < READINESS_ATTEMPTS ==> !(#[trigger] unhealthy_run(
                0,
                spawned_spec(start_spec(v, port), pid, port, now),
                k,
            )).2,
        unhealthy_run(0, spawned_spec(start_spec(v, port), pid, port, now), 30).2,
        unhealthy_run(0, spawned_spec(start_spec(v, port), pid, port, now), 30).1.state
            == GatewayState::Error,
        unhealthy_run(0, spawned_spec(start_spec(v, port), pid, port, now), 30).1.error == Some(
            timeout_message(),
        ),
{
    let s = spawned_spec(start_spec(v, port), pid, port, now);
    assert forall|k: nat| k < READINESS_ATTEMPTS implies !(#[trigger] unhealthy_run(0, s, k)).2 by {
        lemma_unhealthy_prefix(s, k);
    }
    lemma_unhealthy_prefix(s, 29);
}

/// The health monitor after one probe of a running gateway: a success
/// clears the failure count; a failure adds one, and the third in a row puts
/// a running gateway in error and ends monitoring.
pub open spec fn monitor_step(failed: u8, v: GatewayView, healthy: bool) -> (u8, GatewayView, bool) {
    if healthy {
        (0, v, false)
    } else {
        let f = if failed == 255 {
            255
        } else {
            (failed + 1) as u8
        };
        if f < MAX_FAILED_CHECKS {
            (f, v, false)
        } else {
            (f, promote_spec(v, GatewayState::Running, GatewayState::Error, Some(unhealthy_message())), true)
        }
    }
}

/// Watches a running gateway's health.
pub struct HealthMonitor {
    pub failed_checks: u8,
}

impl HealthMonitor {
    pub fn new() -> (r: Self)
        ensures
            r.failed_checks == 0,
    {
        HealthMonitor { failed_checks: 0 }
    }

    /// Before each probe: reconciles with the child (an exit that no stop
    /// asked for is an error) and says whether the gateway is still running,
    /// which is when monitoring goes on.
    pub fn should_probe(&self, rt: &mut GatewayRuntime, obs: ProcessObservation) -> (r: bool)
        ensures
            final(rt)@ == monitor_observe_spec(old(rt)@, obs),
            r == (final(rt).state == GatewayState::Running),
    {
        rt.refresh_while_monitoring(obs);
        rt.state == GatewayState::Running
    }

    /// Takes one probe result into account. Returns whether monitoring ends.
    pub fn record_probe(&mut self, rt: &mut GatewayRuntime, healthy: bool) -> (finished: bool)
        ensures
            (final(self).failed_checks, final(rt)@, finished) == monitor_step(
                old(self).failed_checks,
                old(rt)@,
                healthy,
            ),
    {
        if healthy {
            self.failed_checks = 0;
            return false;
        }
        self.failed_checks = if self.failed_checks == 255 {
            255
        } else {
            self.failed_checks + 1
        };
        if self.failed_checks < MAX_FAILED_CHECKS {
            return false;
        }
        rt.mark_unhealthy();
        true
    }
}

/// While monitored, a running gateway whose child exits without a stop
/// request is in error, even after a clean exit.
pub proof fn lemma_monitor_unrequested_exit_is_error(v: GatewayView, success: bool, status: String)
    requires
        v.has_child,
        v.state == GatewayState::Running,
    ensures
        monitor_observe_spec(v, ProcessObservation::Exited { success, status }).state
            == GatewayState::Error,
        !monitor_observe_spec(v, ProcessObservation::Exited { success, status }).has_child,
{
}

/// Three failed probes in a row put a running gateway in error; a success
/// between them starts the count again.
pub proof fn lemma_three_failures_trip(v: GatewayView)
    requires
        v.state == GatewayState::Running,
    ensures
        !monitor_step(0, v, false).2,
        !monitor_step(1, v, false).2,
        monitor_step(2, v, false).2,
        monitor_step(2, v, false).1.state == GatewayState::Error,
        monitor_step(2, v, false).1.error == Some(unhealthy_message()),
        monitor_step(2, v, true) == (0u8, v, false),
{
}

/// What the caller learnt on polling a child that was asked to terminate.
pub enum ChildWait {
    Exited,
    StillRunning,
    WaitFailed,
}

#[derive(PartialEq, Eq, Structural)]
pub enum StopAction {
    /// The child is gone, or cannot be waited on: finish the stop.
    Done,
    /// Poll again after a short sleep.
    Wait,
    /// The grace period is over: kill the child, reap it, finish the stop.
    ForceKill,
}

pub open spec fn stop_wait_spec(elapsed_ms: u64, wait: ChildWait) -> StopAction {
    match wait {
        ChildWait::StillRunning => if elapsed_ms >= STOP_GRACE_MS {
            StopAction::ForceKill
        } else {
            StopAction::Wait
        },
        _ => StopAction::Done,
    }
}

/// The next step of a stop, `elapsed_ms` after the termination signal.
pub fn stop_wait_action(elapsed_ms: u64, wait: ChildWait) -> (r: StopAction)
    ensures
        r == stop_wait_spec(elapsed_ms, wait),
{
    match wait {
        ChildWait::StillRunning => {
            if elapsed_ms >= STOP_GRACE_MS {
                StopAction::ForceKill
            } else {
                StopAction::Wait
            }
        },
        _ => StopAction::Done,
    }
}

/// Stopping a running gateway passes through `stopping`; a child that ignores
/// the termination signal is killed once the grace period is over, and the
/// stop always ends in `stopped` with no child held.
pub proof fn lemma_stop_reaches_stopped(v: GatewayView, elapsed_ms: u64)
    requires
        v.has_child,
        v.state == GatewayState::Running,
    ensures
        begin_stop_spec(v).state == GatewayState::Stopping,
        elapsed_ms >= STOP_GRACE_MS ==> stop_wait_spec(elapsed_ms, ChildWait::StillRunning)
            == StopAction::ForceKill,
        elapsed_ms < STOP_GRACE_MS ==> stop_wait_spec(elapsed_ms, ChildWait::StillRunning)
            == StopAction::Wait,
        stop_wait_spec(elapsed_ms, ChildWait::Exited) == StopAction::Done,
        finish_stop_spec(begin_stop_spec(v)).state == GatewayState::Stopped,
        !finish_stop_spec(begin_stop_spec(v)).has_child,
{
}

/// A stop with no child is a no-op that leaves the gateway stopped.
pub proof fn lemma_stop_without_child(v: GatewayView)
    requires
        !v.has_child,
    ensures
        begin_stop_spec(v).state == GatewayState::Stopped,
{
}

/// A status query made after the child has exited on its own reports the
/// exit at once: the gateway is stopped after a clean exit or during a stop,
/// and in error otherwise, and no child is held any more.
pub proof fn lemma_status_sees_exit(v: GatewayView, success: bool, status: String)
    requires
        v.has_child,
    ensures
        ({
            let w = observe_spec(v, ProcessObservation::Exited { success, status });
            &&& !w.has_child
            &&& w.state == GatewayState::Stopped || w.state == GatewayState::Error
            &&& w.state == GatewayState::Stopped <==> (success || v.state == GatewayState::Stopping)
        }),
{
}

/// The workers' transitions never take a gateway back to `starting`, and
/// they compare before they set: a readiness worker that wakes after a stop
/// or a crash leaves the stopped or failed gateway as it finds it.
pub proof fn lemma_workers_never_revert(
    v: GatewayView,
    attempts: u32,
    failed: u8,
    healthy: bool,
    obs: ProcessObservation,
)
    requires
        v.state != GatewayState::Starting,
    ensures
        readiness_step(attempts, v, healthy, obs).1.state != GatewayState::Starting,
        monitor_step(failed, v, healthy).1.state != GatewayState::Starting,
        observe_spec(v, obs).state != GatewayState::Starting,
        monitor_observe_spec(v, obs).state != GatewayState::Starting,
        v.state == GatewayState::Stopped || v.state == GatewayState::Error ==> promote_spec(
            v,
            GatewayState::Starting,
            GatewayState::Running,
            None,
        ) == v,
{
}

} // verus!
