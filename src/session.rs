//! The connection session supervisor.
//!
//! The supervisor owns the one record of connection state.  Every
//! operation is a transition of that record: the caller performs the outside
//! work (spawning and killing the tunnel engine, reading its output, the
//! firewall) and reports what happened, tagged with the session id it was
//! started for.  A report for any session but the current one changes
//! nothing, so a late task of a superseded session cannot overwrite the
//! state of a newer one.

use crate::status::St;
use crate::text::{chars_of, contains_str, has_infix};
use vstd::prelude::*;

verus! {

/// Consecutive failures before connection, after which automatic
/// reconnection gives up.
pub const MAX_FAILURES: u64 = 3;

/// How long a connection attempt may take by default, in milliseconds.
pub const DEFAULT_DEADLINE_MS: u64 = 10_000;

/// How long the tunnel engine must by default have been silent before an
/// attempt past its deadline is abandoned, in milliseconds.
pub const DEFAULT_GRACE_MS: u64 = 2_000;

/// The tunnel engine's line that marks a completed connection.
pub const INIT_MARKER: &'static str = "Initialization Sequence Completed";

/// The tunnel engine's marks of rejected credentials.
pub const AUTH_MARKER: &'static str = "AUTH_FAILED";

pub const AUTH_MARKER_ALT: &'static str = "auth-failure";

/// The state of the supervisor.
#[derive(Clone, Copy, Debug, PartialEq, Eq, Structural)]
pub struct Supervisor {
    /// What the user sees.
    pub status: St,
    /// The session whose tunnel engine is supervised, if any.
    pub session: Option<u64>,
    /// The id that the next session gets.
    pub next_id: u64,
    /// Whether the kill switch is armed.
    pub kill_switch: bool,
    /// Whether a session that fails is started again.
    pub recovery: bool,
    /// Failures before connection since the last connected session.
    pub failures: u64,
    /// Whether the last session ended on rejected credentials.
    pub auth_failed: bool,
    /// When the current session started connecting, in milliseconds.
    pub armed_at: u64,
    /// When the tunnel engine last wrote output, in milliseconds.
    pub last_output: u64,
    /// How long a connection attempt may take, in milliseconds.
    pub deadline_ms: u64,
    /// How long the tunnel engine must have been silent before an attempt
    /// past its deadline is abandoned, in milliseconds.
    pub grace_ms: u64,
}

/// Why `connect` refused.
#[derive(Clone, Copy, Debug, PartialEq, Eq, Structural)]
pub enum ConnectError {
    /// A session is active: disconnect first.
    AlreadyActive,
    /// Every session id has been used.
    IdsExhausted,
    /// Automatic reconnection is off, has given up, or the credentials were
    /// rejected.
    NoRetry,
}

/// What a line of the tunnel engine's output did.
#[derive(Clone, Debug)]
pub enum OutputEvent {
    /// The line belongs to a session that is not current.
    Stale,
    /// The line is only logged.
    Logged,
    /// The connection is complete.
    Connected,
    /// The credentials were rejected; the session is over and is not retried.
    AuthFailed(String),
}

/// How a session's tunnel engine ended.
#[derive(Clone, Copy, Debug, PartialEq, Eq, Structural)]
pub enum Outcome {
    ManualStop,
    ExitedAfterConnect,
    ExitedBeforeConnect,
    TimedOut,
    SpawnFailed,
    AuthFailed,
}

/// What a report of the end of a session did.
#[derive(Clone, Copy, Debug, PartialEq, Eq, Structural)]
pub enum EndEvent {
    /// The report belongs to a session that is not current.
    Stale,
    /// The session ended; `retry` says whether to start it again.
    Ended { outcome: Outcome, retry: bool },
}

/// What became of a session found running after a restart.
#[derive(Clone, Copy, Debug, PartialEq, Eq, Structural)]
pub enum Adoption {
    /// Its tunnel engine is gone: drop the saved record.
    Discard,
    /// It is supervised again as session `id`; when `reapply_firewall`, the
    /// caller arms the kill switch again before it resumes reading the log.
    Adopted { id: u64, reapply_firewall: bool },
}

/// The supervisor of a process that has just started.
pub open spec fn initial(deadline_ms: u64, grace_ms: u64) -> Supervisor {
    Supervisor {
        status: St::Disconnected,
        session: None,
        next_id: 1,
        kill_switch: false,
        recovery: false,
        failures: 0,
        auth_failed: false,
        armed_at: 0,
        last_output: 0,
        deadline_ms,
        grace_ms,
    }
}

/// The supervisor's invariant: a session exists while the status is not
/// disconnected, and its id was handed out.
pub open spec fn wf(s: Supervisor) -> bool {
    &&& (s.status !is Disconnected ==> s.session is Some)
    &&& (s.session matches Some(id) ==> id < s.next_id)
}

/// Whether a report tagged `id` is for the current session.
pub open spec fn is_current(s: Supervisor, id: u64) -> bool {
    s.session == Some(id)
}

/// The state after a new session starts at `now` (failures kept).
pub open spec fn started(s: Supervisor, now: u64) -> Supervisor {
    Supervisor {
        status: St::Connecting,
        session: Some(s.next_id),
        next_id: (s.next_id + 1) as u64,
        auth_failed: false,
        armed_at: now,
        last_output: now,
        ..s
    }
}

/// What `connect` does.
pub open spec fn connect_spec(s: Supervisor, now: u64) -> (Supervisor, Result<u64, ConnectError>) {
    if s.session is Some {
        (s, Err(ConnectError::AlreadyActive))
    } else if s.next_id == u64::MAX {
        (s, Err(ConnectError::IdsExhausted))
    } else {
        (Supervisor { failures: 0, ..started(s, now) }, Ok(s.next_id))
    }
}

/// Whether automatic reconnection may start a session.
pub open spec fn may_retry(s: Supervisor) -> bool {
    s.recovery && !s.auth_failed && s.failures < MAX_FAILURES
}

/// What `reconnect` does.
pub open spec fn reconnect_spec(s: Supervisor, now: u64) -> (Supervisor, Result<u64, ConnectError>) {
    if s.session is Some {
        (s, Err(ConnectError::AlreadyActive))
    } else if !may_retry(s) {
        (s, Err(ConnectError::NoRetry))
    } else if s.next_id == u64::MAX {
        (s, Err(ConnectError::IdsExhausted))
    } else {
        (started(s, now), Ok(s.next_id))
    }
}

/// What `adopt` does with a saved session whose engine is `alive` or not.
pub open spec fn adopt_spec(s: Supervisor, kill_switch: bool, recovery: bool, alive: bool, now: u64) -> (
    Supervisor,
    Result<Adoption, ConnectError>,
) {
    if !alive {
        (s, Ok(Adoption::Discard))
    } else if s.session is Some {
        (s, Err(ConnectError::AlreadyActive))
    } else if s.next_id == u64::MAX {
        (s, Err(ConnectError::IdsExhausted))
    } else {
        (
            Supervisor { kill_switch, recovery, failures: 0, ..started(s, now) },
            Ok(Adoption::Adopted { id: s.next_id, reapply_firewall: kill_switch }),
        )
    }
}

/// The state after the current session ends.
pub open spec fn ended(s: Supervisor, failures: u64) -> Supervisor {
    Supervisor { status: St::Disconnected, session: None, failures, ..s }
}

/// One more failure, saturating.
pub open spec fn bump(f: u64) -> u64 {
    if f < u64::MAX {
        (f + 1) as u64
    } else {
        f
    }
}

/// What `start_failed` does.
pub open spec fn start_failed_spec(s: Supervisor, id: u64) -> (Supervisor, EndEvent) {
    if !is_current(s, id) {
        (s, EndEvent::Stale)
    } else {
        let f = bump(s.failures);
        (ended(s, f), EndEvent::Ended { outcome: Outcome::SpawnFailed, retry: may_retry(ended(s, f)) })
    }
}

/// What a line of output does to the state.
pub open spec fn output_spec(s: Supervisor, id: u64, line: Seq<char>, now: u64) -> Supervisor {
    if !is_current(s, id) {
        s
    } else if has_infix(line, AUTH_MARKER@) || has_infix(line, AUTH_MARKER_ALT@) {
        Supervisor { auth_failed: true, ..ended(s, s.failures) }
    } else if has_infix(line, INIT_MARKER@) && s.status is Connecting {
        Supervisor { status: St::Connected, last_output: now, ..s }
    } else {
        Supervisor { last_output: now, ..s }
    }
}

/// What the exit of the tunnel engine does.
pub open spec fn exit_spec(s: Supervisor, id: u64) -> (Supervisor, EndEvent) {
    if !is_current(s, id) {
        (s, EndEvent::Stale)
    } else if s.status is Connected {
        (ended(s, 0), EndEvent::Ended { outcome: Outcome::ExitedAfterConnect, retry: may_retry(ended(s, 0)) })
    } else {
        let f = bump(s.failures);
        (ended(s, f), EndEvent::Ended { outcome: Outcome::ExitedBeforeConnect, retry: may_retry(ended(s, f)) })
    }
}

/// Whether a connection attempt armed at `armed_at` is abandoned at `now`:
/// its deadline has passed and the tunnel engine has been silent for the
/// grace period.
pub open spec fn watchdog_due(armed_at: u64, last_output: u64, now: u64, deadline_ms: u64, grace_ms: u64) -> bool {
    now >= armed_at + deadline_ms && now >= last_output + grace_ms
}

/// What a watchdog tick does.
pub open spec fn tick_spec(s: Supervisor, id: u64, now: u64) -> (Supervisor, EndEvent) {
    if !is_current(s, id) || s.status !is Connecting || !watchdog_due(s.armed_at, s.last_output, now, s.deadline_ms, s.grace_ms) {
        (s, EndEvent::Stale)
    } else {
        let f = bump(s.failures);
        (ended(s, f), EndEvent::Ended { outcome: Outcome::TimedOut, retry: may_retry(ended(s, f)) })
    }
}

/// What `disconnect` does.
pub open spec fn disconnect_spec(s: Supervisor) -> Supervisor {
    Supervisor { status: St::Disconnected, session: None, ..s }
}

/// The error text of rejected credentials.
pub open spec fn auth_failed_text() -> Seq<char> {
    "OpenVPN authentication failed (AUTH_FAILED)."@
}

impl Supervisor {
    /// A supervisor with no session, the kill switch and recovery off.
    pub fn new(deadline_ms: u64, grace_ms: u64) -> (r: Supervisor)
        ensures
            r == initial(deadline_ms, grace_ms),
            wf(r),
    {
        Supervisor {
            status: St::Disconnected,
            session: None,
            next_id: 1,
            kill_switch: false,
            recovery: false,
            failures: 0,
            auth_failed: false,
            armed_at: 0,
            last_output: 0,
            deadline_ms,
            grace_ms,
        }
    }

    /// The current status.
    pub fn status(&self) -> (r: St)
        ensures
            r == self.status,
    {
        self.status
    }

    fn start(&mut self, now: u64) -> (id: u64)
        requires
            old(self).session is None,
            old(self).next_id < u64::MAX,
        ensures
            id == old(self).next_id,
            *final(self) == started(*old(self), now),
    {
        let id = self.next_id;
        self.status = St::Connecting;
        self.session = Some(id);
        self.next_id = id + 1;
        self.auth_failed = false;
        self.armed_at = now;
        self.last_output = now;
        id
    }

    /// Starts a session at time `now`: fails when one is active, else
    /// allocates the next id and moves to connecting.
    pub fn connect(&mut self, now: u64) -> (r: Result<u64, ConnectError>)
        ensures
            (*final(self), r) == connect_spec(*old(self), now),
            wf(*old(self)) ==> wf(*final(self)),
    {
        if self.session.is_some() {
            return Err(ConnectError::AlreadyActive);
        }
        if self.next_id == u64::MAX {
            return Err(ConnectError::IdsExhausted);
        }
        let id = self.start(now);
        self.failures = 0;
        Ok(id)
    }

    /// Takes over a session saved before a restart, with its kill-switch and
    /// recovery settings, once the caller has probed whether its engine
    /// still runs.  A live one becomes a new connecting session; the log
    /// then tells whether it is connected or already over.
    pub fn adopt(&mut self, kill_switch: bool, recovery: bool, alive: bool, now: u64) -> (r: Result<Adoption, ConnectError>)
        ensures
            (*final(self), r) == adopt_spec(*old(self), kill_switch, recovery, alive, now),
            wf(*old(self)) ==> wf(*final(self)),
    {
        if !alive {
            return Ok(Adoption::Discard);
        }
        if self.session.is_some() {
            return Err(ConnectError::AlreadyActive);
        }
        if self.next_id == u64::MAX {
            return Err(ConnectError::IdsExhausted);
        }
        let id = self.start(now);
        self.kill_switch = kill_switch;
        self.recovery = recovery;
        self.failures = 0;
        Ok(Adoption::Adopted { id, reapply_firewall: kill_switch })
    }

    /// Starts a session again after a failure, where recovery allows it.
    pub fn reconnect(&mut self, now: u64) -> (r: Result<u64, ConnectError>)
        ensures
            (*final(self), r) == reconnect_spec(*old(self), now),
            wf(*old(self)) ==> wf(*final(self)),
    {
        if self.session.is_some() {
            return Err(ConnectError::AlreadyActive);
        }
        if !(self.recovery && !self.auth_failed && self.failures < MAX_FAILURES) {
            return Err(ConnectError::NoRetry);
        }
        if self.next_id == u64::MAX {
            return Err(ConnectError::IdsExhausted);
        }
        Ok(self.start(now))
    }

    fn is_current(&self, id: u64) -> (b: bool)
        ensures
            b == is_current(*self, id),
    {
        match self.session {
            Some(cur) => cur == id,
            None => false,
        }
    }

    fn end(&mut self, failures: u64)
        ensures
            *final(self) == ended(*old(self), failures),
    {
        self.status = St::Disconnected;
        self.session = None;
        self.failures = failures;
    }

    fn may_retry(&self) -> (b: bool)
        ensures
            b == may_retry(*self),
    {
        self.recovery && !self.auth_failed && self.failures < MAX_FAILURES
    }

    /// Reports that session `id` failed before its tunnel engine ran (bad
    /// input, missing engine, refused spawn).
    pub fn start_failed(&mut self, id: u64) -> (r: EndEvent)
        ensures
            (*final(self), r) == start_failed_spec(*old(self), id),
            wf(*old(self)) ==> wf(*final(self)),
    {
        if !self.is_current(id) {
            return EndEvent::Stale;
        }
        let f = if self.failures < u64::MAX {
            self.failures + 1
        } else {
            self.failures
        };
        self.end(f);
        EndEvent::Ended { outcome: Outcome::SpawnFailed, retry: self.may_retry() }
    }

    /// Reports a line of output of session `id`'s tunnel engine at `now`.
    pub fn on_output(&mut self, id: u64, line: &str, now: u64) -> (r: OutputEvent)
        ensures
            *final(self) == output_spec(*old(self), id, line@, now),
            wf(*old(self)) ==> wf(*final(self)),
            !is_current(*old(self), id) <==> r is Stale,
            r is Connected <==> (is_current(*old(self), id) && final(self).status is Connected
                && old(self).status is Connecting),
            r is AuthFailed <==> (is_current(*old(self), id) && (has_infix(line@, AUTH_MARKER@)
                || has_infix(line@, AUTH_MARKER_ALT@))),
            r matches OutputEvent::AuthFailed(m) ==> m@ == auth_failed_text(),
    {
        if !self.is_current(id) {
            return OutputEvent::Stale;
        }
        let l = chars_of(line);
        if contains_str(&l, AUTH_MARKER) || contains_str(&l, AUTH_MARKER_ALT) {
            let f = self.failures;
            self.end(f);
            self.auth_failed = true;
            return OutputEvent::AuthFailed(String::from_str("OpenVPN authentication failed (AUTH_FAILED)."));
        }
        self.last_output = now;
        if contains_str(&l, INIT_MARKER) && self.status == St::Connecting {
            self.status = St::Connected;
            OutputEvent::Connected
        } else {
            OutputEvent::Logged
        }
    }

    /// Reports that session `id`'s tunnel engine exited.
    pub fn on_exit(&mut self, id: u64) -> (r: EndEvent)
        ensures
            (*final(self), r) == exit_spec(*old(self), id),
            wf(*old(self)) ==> wf(*final(self)),
    {
        if !self.is_current(id) {
            return EndEvent::Stale;
        }
        if self.status == St::Connected {
            self.end(0);
            EndEvent::Ended { outcome: Outcome::ExitedAfterConnect, retry: self.may_retry() }
        } else {
            let f = if self.failures < u64::MAX {
                self.failures + 1
            } else {
                self.failures
            };
            self.end(f);
            EndEvent::Ended { outcome: Outcome::ExitedBeforeConnect, retry: self.may_retry() }
        }
    }

    /// A watchdog tick for session `id` at `now`: abandons the attempt when
    /// it is due.  The caller then kills the tunnel engine.
    pub fn on_tick(&mut self, id: u64, now: u64) -> (r: EndEvent)
        ensures
            (*final(self), r) == tick_spec(*old(self), id, now),
            wf(*old(self)) ==> wf(*final(self)),
    {
        if !self.is_current(id) || self.status != St::Connecting || !watchdog_is_due(
            self.armed_at,
            self.last_output,
            now,
            self.deadline_ms,
            self.grace_ms,
        ) {
            return EndEvent::Stale;
        }
        let f = if self.failures < u64::MAX {
            self.failures + 1
        } else {
            self.failures
        };
        self.end(f);
        EndEvent::Ended { outcome: Outcome::TimedOut, retry: self.may_retry() }
    }

    /// Ends the current session, if any, and returns its id so that the
    /// caller cancels its tasks.  The kill switch stays as it was.
    pub fn disconnect(&mut self) -> (r: Option<u64>)
        ensures
            *final(self) == disconnect_spec(*old(self)),
            r == old(self).session,
            wf(*old(self)) ==> wf(*final(self)),
    {
        let r = self.session;
        self.status = St::Disconnected;
        self.session = None;
        r
    }

    /// Arms or disarms the kill switch.
    pub fn set_kill_switch(&mut self, enabled: bool)
        ensures
            *final(self) == (Supervisor { kill_switch: enabled, ..*old(self) }),
    {
        self.kill_switch = enabled;
    }

    /// Whether the kill switch is armed.
    pub fn kill_switch_enabled(&self) -> (r: bool)
        ensures
            r == self.kill_switch,
    {
        self.kill_switch
    }

    /// Turns automatic reconnection on or off.
    pub fn set_recovery(&mut self, enabled: bool)
        ensures
            *final(self) == (Supervisor { recovery: enabled, ..*old(self) }),
    {
        self.recovery = enabled;
    }
}

/// Whether a connection attempt is due to be abandoned.
pub fn watchdog_is_due(armed_at: u64, last_output: u64, now: u64, deadline_ms: u64, grace_ms: u64) -> (r: bool)
    ensures
        r == watchdog_due(armed_at, last_output, now, deadline_ms, grace_ms),
{
    now >= armed_at && now - armed_at >= deadline_ms && now >= last_output && now - last_output >= grace_ms
}


/// An operation on the supervisor, as the laws below speak of it.
pub enum Op {
    Connect(u64),
    Reconnect(u64),
    Adopt(bool, bool, bool, u64),
    StartFailed(u64),
    Output(u64, Seq<char>, u64),
    Exit(u64),
    Tick(u64, u64),
    Disconnect,
    SetKillSwitch(bool),
    SetRecovery(bool),
}

/// The state after one operation.
pub open spec fn step(s: Supervisor, op: Op) -> Supervisor {
    match op {
        Op::Connect(now) => connect_spec(s, now).0,
        Op::Reconnect(now) => reconnect_spec(s, now).0,
        Op::Adopt(k, r, alive, now) => adopt_spec(s, k, r, alive, now).0,
        Op::StartFailed(id) => start_failed_spec(s, id).0,
        Op::Output(id, line, now) => output_spec(s, id, line, now),
        Op::Exit(id) => exit_spec(s, id).0,
        Op::Tick(id, now) => tick_spec(s, id, now).0,
        Op::Disconnect => disconnect_spec(s),
        Op::SetKillSwitch(b) => Supervisor { kill_switch: b, ..s },
        Op::SetRecovery(b) => Supervisor { recovery: b, ..s },
    }
}

/// The state after a series of operations.
pub open spec fn run(s: Supervisor, ops: Seq<Op>) -> Supervisor
    decreases ops.len(),
{
    if ops.len() == 0 {
        s
    } else {
        step(run(s, ops.drop_last()), ops.last())
    }
}

/// Whether `op` is a report tagged with session id `id`.
pub open spec fn is_report_for(op: Op, id: u64) -> bool {
    match op {
        Op::StartFailed(n) => n == id,
        Op::Output(n, _, _) => n == id,
        Op::Exit(n) => n == id,
        Op::Tick(n, _) => n == id,
        _ => false,
    }
}

/// One operation keeps the invariant.
pub proof fn lemma_step_wf(s: Supervisor, op: Op)
    requires
        wf(s),
    ensures
        wf(step(s, op)),
{
}

/// Whatever the series of operations, the supervisor's invariant holds after
/// it: the status is one of the three states, and it is not disconnected only
/// while a session that was handed an id is active.
pub proof fn lemma_run_wf(s: Supervisor, ops: Seq<Op>)
    requires
        wf(s),
    ensures
        wf(run(s, ops)),
    decreases ops.len(),
{
    if ops.len() > 0 {
        lemma_run_wf(s, ops.drop_last());
        lemma_step_wf(run(s, ops.drop_last()), ops.last());
    }
}

/// Only a connect (by the user, by automatic reconnection, or taking over a
/// session after a restart) enters the connecting state; every other
/// operation that leaves the supervisor connecting found it connecting in the
/// same session.  A successful connect always enters it.
pub proof fn lemma_connecting_only_after_connect(s: Supervisor, op: Op)
    ensures
        step(s, op).status is Connecting && !(op is Connect) && !(op is Reconnect) && !(op is Adopt) ==> s.status
            is Connecting && step(s, op).session == s.session,
        op matches Op::Connect(now) && connect_spec(s, now).1 is Ok ==> step(s, op).status
            is Connecting,
        op matches Op::Reconnect(now) && reconnect_spec(s, now).1 is Ok ==> step(s, op).status
            is Connecting,
{
}

/// A report for a session other than the current one changes nothing.
pub proof fn lemma_stale_reports_ignored(s: Supervisor, id: u64, ops: Seq<Op>)
    requires
        !is_current(s, id),
        forall|i: int| 0 <= i < ops.len() ==> is_report_for(#[trigger] ops[i], id),
    ensures
        run(s, ops) == s,
    decreases ops.len(),
{
    if ops.len() > 0 {
        lemma_stale_reports_ignored(s, id, ops.drop_last());
        assert(is_report_for(ops[ops.len() - 1], id));
    }
}

/// Once a connect has handed out a new session id, the tasks of any earlier
/// session can no longer change the state, whatever they report.
pub proof fn lemma_no_stale_overwrite(s: Supervisor, now: u64, old_id: u64, ops: Seq<Op>)
    requires
        wf(s),
        old_id < s.next_id,
        connect_spec(s, now).1 is Ok,
        forall|i: int| 0 <= i < ops.len() ==> is_report_for(#[trigger] ops[i], old_id),
    ensures
        connect_spec(s, now).0.session == Some(s.next_id),
        run(connect_spec(s, now).0, ops) == connect_spec(s, now).0,
{
    lemma_stale_reports_ignored(connect_spec(s, now).0, old_id, ops);
}

/// The watchdog never abandons an attempt before its deadline, and abandons
/// one whose tunnel engine has been silent since the deadline at any time
/// from deadline plus grace period on.  With ticks at most `slack` apart, it
/// thus fires no later than deadline + grace + slack.
pub proof fn lemma_watchdog_window(armed_at: u64, last_output: u64, now: u64, deadline_ms: u64, grace_ms: u64)
    ensures
        watchdog_due(armed_at, last_output, now, deadline_ms, grace_ms) ==> now >= armed_at
            + deadline_ms,
        last_output <= armed_at + deadline_ms && now >= armed_at + deadline_ms + grace_ms
            ==> watchdog_due(armed_at, last_output, now, deadline_ms, grace_ms),
{
}

/// For a session that is still connecting: a tick before the deadline
/// changes nothing, and a tick from deadline plus grace on, with the engine
/// silent since the deadline, ends the session.
pub proof fn lemma_watchdog_ends_session(s: Supervisor, id: u64, now: u64)
    requires
        is_current(s, id),
        s.status is Connecting,
    ensures
        now < s.armed_at + s.deadline_ms ==> tick_spec(s, id, now).0 == s,
        s.last_output <= s.armed_at + s.deadline_ms && now >= s.armed_at + s.deadline_ms
            + s.grace_ms ==> tick_spec(s, id, now).0.status is Disconnected
            && tick_spec(s, id, now).0.session is None
            && tick_spec(s, id, now).1 matches EndEvent::Ended { outcome: Outcome::TimedOut, .. },
{
}

/// Rejected credentials end the session with a message, and no automatic
/// reconnection follows, even with recovery on.
pub proof fn lemma_auth_failure_is_final(s: Supervisor, id: u64, line: Seq<char>, now: u64, later: u64)
    requires
        is_current(s, id),
        has_infix(line, AUTH_MARKER@) || has_infix(line, AUTH_MARKER_ALT@),
    ensures
        output_spec(s, id, line, now).status is Disconnected,
        output_spec(s, id, line, now).session is None,
        reconnect_spec(output_spec(s, id, line, now), later).1 == Err::<u64, ConnectError>(
            ConnectError::NoRetry,
        ),
        auth_failed_text().len() > 0,
{
    reveal_strlit("OpenVPN authentication failed (AUTH_FAILED).");
}

} // verus!
