//! The privileged control protocol.
//!
//! The unprivileged client sends one JSON request per line over a local
//! socket; the privileged helper answers with one response line, or, for a
//! subscription, streams events.  This module holds the protocol's values,
//! the helper's hardening checks, and the helper's decisions: what each
//! request and each report about the tunnel engine does to the helper's
//! state, which events it publishes and what it answers.  Reading and
//! writing lines, spawning and killing are the caller's.

use crate::session::{AUTH_MARKER, AUTH_MARKER_ALT, INIT_MARKER};
use crate::status::St;
use crate::text::{
    chars_of, contains_str, decimal, ends_with_str, has_infix, has_prefix, has_suffix, push_all,
    push_decimal, push_signed, push_str, signed_decimal, starts_with_str, string_of, string_views,
    trim, trim_chars,
};
use vstd::prelude::*;

verus! {

/// The last component of a path: what follows its last `/`.  For the path
/// of an existing file this is what `Path::file_name` gives.
pub open spec fn file_name(s: Seq<char>) -> Seq<char>
    decreases s.len(),
{
    if s.len() == 0 {
        s
    } else if s.last() == '/' {
        Seq::empty()
    } else {
        file_name(s.drop_last()).push(s.last())
    }
}

fn file_name_of(v: &Vec<char>) -> (r: Vec<char>)
    ensures
        r@ == file_name(v@),
{
    let mut r: Vec<char> = Vec::new();
    let mut i: usize = 0;
    while i < v.len()
        invariant
            i <= v.len(),
            r@ == file_name(v@.take(i as int)),
        decreases v.len() - i,
    {
        assert(v@.take(i + 1).drop_last() =~= v@.take(i as int));
        if v[i] == '/' {
            r = Vec::new();
        } else {
            r.push(v[i]);
        }
        i = i + 1;
    }
    assert(v@.take(v.len() as int) =~= v@);
    r
}

/// The path that the hardening checks look at: the request's path without
/// surrounding white space.  The caller probes the file system for it.
pub fn probe_target(p: &str) -> (r: String)
    ensures
        r@ == trim(p@),
{
    string_of(&trim_chars(&chars_of(p)))
}

/// Whether a requested engine binary may be run: a non-empty path naming a
/// regular file (`is_file`, as probed for `probe_target(p)`) whose file name
/// starts with `openvpn`.
pub open spec fn safe_engine_path(p: Seq<char>, is_file: bool) -> bool {
    trim(p).len() > 0 && is_file && has_prefix(file_name(trim(p)), "openvpn"@)
}

pub fn is_safe_openvpn_path(p: &str, is_file: bool) -> (r: bool)
    ensures
        r == safe_engine_path(p@, is_file),
{
    let s = trim_chars(&chars_of(p));
    if s.len() == 0 || !is_file {
        return false;
    }
    let name = file_name_of(&s);
    starts_with_str(&name, "openvpn")
}

/// Whether a path climbs to a parent directory.
pub open spec fn climbs(s: Seq<char>) -> bool {
    has_infix(s, "/../"@) || has_suffix(s, "/.."@)
}

/// Whether a requested auxiliary file may be used: a non-empty path that
/// names an existing regular file (`is_file`, as probed for
/// `probe_target(p)`), or that lies under a temporary directory without
/// climbing out of it.
pub open spec fn safe_aux_path(p: Seq<char>, is_file: bool) -> bool {
    let s = trim(p);
    s.len() > 0 && (is_file || ((has_prefix(s, "/var/folders/"@) || has_prefix(s, "/tmp/"@))
        && !climbs(s)))
}

pub fn is_safe_config_path(p: &str, is_file: bool) -> (r: bool)
    ensures
        r == safe_aux_path(p@, is_file),
{
    let s = trim_chars(&chars_of(p));
    if s.len() == 0 {
        return false;
    }
    if is_file {
        return true;
    }
    (starts_with_str(&s, "/var/folders/") || starts_with_str(&s, "/tmp/")) && !(contains_str(
        &s,
        "/../",
    ) || ends_with_str(&s, "/.."))
}

/// The credential file's path for a session started at `t_ms` milliseconds.
pub open spec fn auth_path_text(t_ms: u64) -> Seq<char> {
    "/tmp/stellar-vpn-desktop/auth-"@ + decimal(t_ms as nat) + ".txt"@
}

pub fn make_auth_path(t_ms: u64) -> (r: String)
    ensures
        r@ == auth_path_text(t_ms),
{
    let mut out: Vec<char> = Vec::new();
    push_str(&mut out, "/tmp/stellar-vpn-desktop/auth-");
    push_decimal(&mut out, t_ms);
    push_str(&mut out, ".txt");
    assert(out@ =~= auth_path_text(t_ms));
    string_of(&out)
}

/// The credential file's contents: user name and password, one per line;
/// an error when either is blank.
pub fn auth_file_contents(username: &str, password: &str) -> (r: Result<String, String>)
    ensures
        (trim(username@).len() == 0 || trim(password@).len() == 0) ==> r is Err
            && r->Err_0@ == "missing username/password"@,
        (trim(username@).len() > 0 && trim(password@).len() > 0) ==> r is Ok && r->Ok_0@
            == username@ + "\n"@ + password@ + "\n"@,
{
    let u = chars_of(username);
    let p = chars_of(password);
    if trim_chars(&u).len() == 0 || trim_chars(&p).len() == 0 {
        return Err(String::from_str("missing username/password"));
    }
    let mut out: Vec<char> = Vec::new();
    push_all(&mut out, &u);
    push_str(&mut out, "\n");
    push_all(&mut out, &p);
    push_str(&mut out, "\n");
    Ok(string_of(&out))
}

/// The tunnel engine's arguments: the configuration and credential files,
/// no credential caching, all traffic through the tunnel, verbosity 3.
pub open spec fn engine_args_spec(config: Seq<char>, auth: Seq<char>) -> Seq<Seq<char>> {
    seq![
        "--config"@,
        config,
        "--auth-user-pass"@,
        auth,
        "--auth-nocache"@,
        "--redirect-gateway"@,
        "def1"@,
        "--verb"@,
        "3"@,
    ]
}

pub fn engine_args(config: &str, auth: &str) -> (r: Vec<String>)
    ensures
        string_views(r@) == engine_args_spec(config@, auth@),
{
    let mut r: Vec<String> = Vec::new();
    r.push(String::from_str("--config"));
    r.push(String::from_str(config));
    r.push(String::from_str("--auth-user-pass"));
    r.push(String::from_str(auth));
    r.push(String::from_str("--auth-nocache"));
    r.push(String::from_str("--redirect-gateway"));
    r.push(String::from_str("def1"));
    r.push(String::from_str("--verb"));
    r.push(String::from_str("3"));
    assert(string_views(r@) =~= engine_args_spec(config@, auth@));
    r
}


/// A request of the protocol.
#[derive(Clone, Debug)]
pub enum Request {
    Connect { openvpn_path: String, config_path: String, auth_path: String },
    Disconnect,
    Subscribe,
    Status,
}

/// The answer to a request other than a subscription.
#[derive(Clone, Debug)]
pub struct Response {
    pub ok: bool,
    pub status: Option<String>,
    pub error: Option<String>,
}

/// An event streamed to subscribers.
#[derive(Clone, Debug)]
pub enum Event {
    Log { line: String },
    Status { value: String },
}

/// An event as plain values.
pub enum EventView {
    Log(Seq<char>),
    Status(Seq<char>),
}

pub open spec fn event_view(e: Event) -> EventView {
    match e {
        Event::Log { line } => EventView::Log(line@),
        Event::Status { value } => EventView::Status(value@),
    }
}

pub open spec fn events_view(v: Seq<Event>) -> Seq<EventView> {
    v.map_values(|e: Event| event_view(e))
}

pub open spec fn opt_view(o: Option<String>) -> Option<Seq<char>> {
    match o {
        Some(s) => Some(s@),
        None => None,
    }
}

/// A response as plain values: success, status, error.
pub open spec fn response_view(r: Response) -> (bool, Option<Seq<char>>, Option<Seq<char>>) {
    (r.ok, opt_view(r.status), opt_view(r.error))
}

/// What the helper found on the file system for the paths of a connect
/// request, each probed at its `probe_target`.
#[derive(Clone, Copy, Debug, PartialEq, Eq, Structural)]
pub struct PathFacts {
    pub engine_is_file: bool,
    pub config_is_file: bool,
    pub config_exists: bool,
    pub auth_is_file: bool,
}

/// The helper's state: what subscribers see, and the launch number of the
/// tunnel engine it runs, if any.
#[derive(Clone, Copy, Debug, PartialEq, Eq, Structural)]
pub struct Helper {
    pub status: St,
    pub child: Option<u64>,
    pub next_launch: u64,
}

/// What a connect request leads to.
pub enum ConnectDecision {
    /// The request is refused with this answer; nothing changes.
    Reject(Response),
    /// Stop the running engine first when `kill`, publish `events`, then run
    /// `program` with `args` as launch number `launch`.
    Launch { kill: bool, launch: u64, program: String, args: Vec<String>, events: Vec<Event> },
}

/// A response that reports success.
pub open spec fn ok_view() -> (bool, Option<Seq<char>>, Option<Seq<char>>) {
    (true, None, None)
}

/// A response that reports the error `e`.
pub open spec fn error_view(e: Seq<char>) -> (bool, Option<Seq<char>>, Option<Seq<char>>) {
    (false, None, Some(e))
}

pub fn ok_response() -> (r: Response)
    ensures
        response_view(r) == ok_view(),
{
    Response { ok: true, status: None, error: None }
}

pub fn error_response(e: String) -> (r: Response)
    ensures
        response_view(r) == error_view(e@),
{
    Response { ok: false, status: None, error: Some(e) }
}

pub fn log_event(line: String) -> (e: Event)
    ensures
        event_view(e) == EventView::Log(line@),
{
    Event::Log { line }
}

pub fn status_event(st: St) -> (e: Event)
    ensures
        event_view(e) == EventView::Status(st.name()),
{
    Event::Status { value: String::from_str(st.as_str()) }
}

/// The helper of a process that has just started.
pub open spec fn helper_initial() -> Helper {
    Helper { status: St::Disconnected, child: None, next_launch: 0 }
}

/// The launch number after `n`.
pub open spec fn next_launch(n: u64) -> u64 {
    if n == u64::MAX {
        0
    } else {
        (n + 1) as u64
    }
}

/// Whether a connect request passes the hardening checks.
pub open spec fn connect_allowed(engine: Seq<char>, config: Seq<char>, auth: Seq<char>, f: PathFacts) -> bool {
    safe_engine_path(engine, f.engine_is_file) && safe_aux_path(config, f.config_is_file)
        && f.config_exists && safe_aux_path(auth, f.auth_is_file)
}

/// The answer to a connect request that fails the checks.
pub open spec fn connect_refusal(engine: Seq<char>, config: Seq<char>, f: PathFacts) -> Seq<char> {
    if !safe_engine_path(engine, f.engine_is_file) {
        "unsafe openvpn path"@
    } else if !(safe_aux_path(config, f.config_is_file) && f.config_exists) {
        "config path not found/unsafe"@
    } else {
        "auth path not found/unsafe"@
    }
}

/// The helper's state after launching.
pub open spec fn launched(h: Helper) -> Helper {
    Helper { status: St::Connecting, child: Some(h.next_launch), next_launch: next_launch(h.next_launch) }
}

/// The helper's state once its engine is gone.
pub open spec fn stopped(h: Helper) -> Helper {
    Helper { status: St::Disconnected, child: None, ..h }
}

/// The log line of an engine that exited with `code` (-1 when unknown).
pub open spec fn exit_line(code: Option<i32>) -> Seq<char> {
    "[mac-helper] OpenVPN exited (code="@ + signed_decimal(
        match code {
            Some(c) => c as int,
            None => -1,
        },
    ) + ")"@
}

impl Helper {
    pub fn new() -> (r: Helper)
        ensures
            r == helper_initial(),
    {
        Helper { status: St::Disconnected, child: None, next_launch: 0 }
    }

    /// The answer to a status request.
    pub fn status_response(&self) -> (r: Response)
        ensures
            response_view(r) == (true, Some(self.status.name()), None::<Seq<char>>),
    {
        Response { ok: true, status: Some(String::from_str(self.status.as_str())), error: None }
    }

    /// The first event of a subscription: the current status.
    pub fn subscribe_event(&self) -> (r: Event)
        ensures
            event_view(r) == EventView::Status(self.status.name()),
    {
        status_event(self.status)
    }

    /// A connect request, with what the caller probed of its paths.  A
    /// request that passes the checks replaces any running engine.
    pub fn handle_connect(&mut self, openvpn_path: &str, config_path: &str, auth_path: &str, facts: PathFacts) -> (r: ConnectDecision)
        ensures
            !connect_allowed(openvpn_path@, config_path@, auth_path@, facts) ==> *final(self)
                == *old(self),
            !connect_allowed(openvpn_path@, config_path@, auth_path@, facts) ==> (r matches ConnectDecision::Reject(resp)
                && response_view(resp) == error_view(connect_refusal(openvpn_path@, config_path@, facts))),
            connect_allowed(openvpn_path@, config_path@, auth_path@, facts) ==> *final(self)
                == launched(*old(self)),
            connect_allowed(openvpn_path@, config_path@, auth_path@, facts) ==> (r matches ConnectDecision::Launch {
                kill,
                launch,
                program,
                args,
                events,
            } && kill == old(self).child is Some && launch == old(self).next_launch && program@
                == trim(openvpn_path@) && string_views(args@) == engine_args_spec(
                trim(config_path@),
                trim(auth_path@),
            ) && events_view(events@) == seq![
                EventView::Status(St::Connecting.name()),
                EventView::Log("[mac-helper] starting OpenVPN..."@),
            ]),
    {
        if !is_safe_openvpn_path(openvpn_path, facts.engine_is_file) {
            return ConnectDecision::Reject(error_response(String::from_str("unsafe openvpn path")));
        }
        if !is_safe_config_path(config_path, facts.config_is_file) || !facts.config_exists {
            return ConnectDecision::Reject(
                error_response(String::from_str("config path not found/unsafe")),
            );
        }
        if !is_safe_config_path(auth_path, facts.auth_is_file) {
            return ConnectDecision::Reject(error_response(String::from_str("auth path not found/unsafe")));
        }
        let kill = self.child.is_some();
        let launch = self.next_launch;
        self.status = St::Connecting;
        self.child = Some(launch);
        self.next_launch = if launch == u64::MAX {
            0
        } else {
            launch + 1
        };
        let program = probe_target(openvpn_path);
        let config = probe_target(config_path);
        let auth = probe_target(auth_path);
        let args = engine_args(config.as_str(), auth.as_str());
        let mut events: Vec<Event> = Vec::new();
        events.push(status_event(St::Connecting));
        events.push(log_event(String::from_str("[mac-helper] starting OpenVPN...")));
        assert(events_view(events@) =~= seq![
            EventView::Status(St::Connecting.name()),
            EventView::Log("[mac-helper] starting OpenVPN..."@),
        ]);
        ConnectDecision::Launch { kill, launch, program, args, events }
    }

    /// Reports that launch number `launch` could not be started, with the
    /// system's error text.  The answer goes to the client that asked.
    pub fn spawn_failed(&mut self, launch: u64, error: &str) -> (r: (Vec<Event>, Response))
        ensures
            response_view(r.1) == error_view("Failed to start openvpn: "@ + error@),
            old(self).child == Some(launch) ==> *final(self) == stopped(*old(self))
                && events_view(r.0@) == seq![EventView::Status(St::Disconnected.name())],
            old(self).child != Some(launch) ==> *final(self) == *old(self) && r.0@.len() == 0,
    {
        let mut msg = String::from_str("Failed to start openvpn: ");
        msg.append(error);
        let resp = error_response(msg);
        let mut events: Vec<Event> = Vec::new();
        if self.child == Some(launch) {
            self.status = St::Disconnected;
            self.child = None;
            events.push(status_event(St::Disconnected));
            assert(events_view(events@) =~= seq![EventView::Status(St::Disconnected.name())]);
        }
        (events, resp)
    }

    /// Reports that the engine of launch number `launch` exited, with its
    /// exit code if it has one.
    pub fn child_exited(&mut self, launch: u64, code: Option<i32>) -> (r: Vec<Event>)
        ensures
            old(self).child == Some(launch) ==> *final(self) == stopped(*old(self))
                && events_view(r@) == seq![
                EventView::Log(exit_line(code)),
                EventView::Status(St::Disconnected.name()),
            ],
            old(self).child != Some(launch) ==> *final(self) == *old(self) && r@.len() == 0,
    {
        let mut events: Vec<Event> = Vec::new();
        if self.child == Some(launch) {
            self.status = St::Disconnected;
            self.child = None;
            let mut line: Vec<char> = Vec::new();
            push_str(&mut line, "[mac-helper] OpenVPN exited (code=");
            let c: i64 = match code {
                Some(c) => c as i64,
                None => -1,
            };
            push_signed(&mut line, c);
            push_str(&mut line, ")");
            assert(line@ =~= exit_line(code));
            events.push(log_event(string_of(&line)));
            events.push(status_event(St::Disconnected));
            assert(events_view(events@) =~= seq![
                EventView::Log(exit_line(code)),
                EventView::Status(St::Disconnected.name()),
            ]);
        }
        events
    }

    /// Reports a line of output of launch number `launch`.  The line is
    /// published; the completion mark makes the helper connected; a mark of
    /// rejected credentials ends the session, and `kill` asks the caller to
    /// stop the engine.
    pub fn on_output(&mut self, launch: u64, line: String) -> (r: (bool, Vec<Event>))
        ensures
            old(self).child != Some(launch) ==> *final(self) == *old(self) && !r.0 && r.1@.len()
                == 0,
            old(self).child == Some(launch) && (has_infix(line@, AUTH_MARKER@) || has_infix(
                line@,
                AUTH_MARKER_ALT@,
            )) ==> *final(self) == stopped(*old(self)) && r.0 && events_view(r.1@) == seq![
                EventView::Log(line@),
                EventView::Log("[mac-helper] AUTH_FAILED detected"@),
                EventView::Status(St::Disconnected.name()),
            ],
            old(self).child == Some(launch) && !(has_infix(line@, AUTH_MARKER@) || has_infix(
                line@,
                AUTH_MARKER_ALT@,
            )) && has_infix(line@, INIT_MARKER@) ==> *final(self) == (Helper {
                status: St::Connected,
                ..*old(self)
            }) && !r.0 && events_view(r.1@) == seq![
                EventView::Log(line@),
                EventView::Status(St::Connected.name()),
            ],
            old(self).child == Some(launch) && !(has_infix(line@, AUTH_MARKER@) || has_infix(
                line@,
                AUTH_MARKER_ALT@,
            )) && !has_infix(line@, INIT_MARKER@) ==> *final(self) == *old(self) && !r.0
                && events_view(r.1@) == seq![EventView::Log(line@)],
    {
        let mut events: Vec<Event> = Vec::new();
        if self.child != Some(launch) {
            return (false, events);
        }
        let l = chars_of(line.as_str());
        let ghost lv = line@;
        events.push(log_event(line));
        if contains_str(&l, AUTH_MARKER) || contains_str(&l, AUTH_MARKER_ALT) {
            self.status = St::Disconnected;
            self.child = None;
            events.push(log_event(String::from_str("[mac-helper] AUTH_FAILED detected")));
            events.push(status_event(St::Disconnected));
            assert(events_view(events@) =~= seq![
                EventView::Log(lv),
                EventView::Log("[mac-helper] AUTH_FAILED detected"@),
                EventView::Status(St::Disconnected.name()),
            ]);
            return (true, events);
        }
        if contains_str(&l, INIT_MARKER) {
            self.status = St::Connected;
            events.push(status_event(St::Connected));
            assert(events_view(events@) =~= seq![
                EventView::Log(lv),
                EventView::Status(St::Connected.name()),
            ]);
        } else {
            assert(events_view(events@) =~= seq![EventView::Log(lv)]);
        }
        (false, events)
    }

    /// A disconnect request: stops the engine if one runs (`kill`), publishes
    /// the disconnected status and answers success.
    pub fn handle_disconnect(&mut self) -> (r: (bool, Vec<Event>, Response))
        ensures
            *final(self) == stopped(*old(self)),
            r.0 == old(self).child is Some,
            events_view(r.1@) == seq![EventView::Status(St::Disconnected.name())],
            response_view(r.2) == ok_view(),
    {
        let kill = self.child.is_some();
        self.status = St::Disconnected;
        self.child = None;
        let mut events: Vec<Event> = Vec::new();
        events.push(status_event(St::Disconnected));
        assert(events_view(events@) =~= seq![EventView::Status(St::Disconnected.name())]);
        (kill, events, ok_response())
    }
}

/// What a subscriber's receiver handed over.
#[derive(Clone, Debug)]
pub enum Received {
    /// The next event line.
    Message(String),
    /// The subscriber fell behind and this many events were dropped for it.
    Lagged(u64),
    /// The publisher is gone.
    Closed,
}

/// What a subscriber's connection does next.
#[derive(Clone, Debug)]
pub enum Forward {
    /// Write this line to the connection.
    Write(String),
    /// Go on receiving.
    Skip,
    /// End the subscription.
    Stop,
}

/// A line as the protocol frames it: the text and a newline.
pub open spec fn framed(s: Seq<char>) -> Seq<char> {
    s + "\n"@
}

pub fn frame_line(s: &str) -> (r: String)
    ensures
        r@ == framed(s@),
{
    let mut r = String::from_str(s);
    r.append("\n");
    r
}

/// A subscriber that fell behind skips what it missed and goes on, so that
/// it never holds back the publisher or the other subscribers; each event it
/// receives is written as one line.
pub fn forward(r: Received) -> (f: Forward)
    ensures
        r matches Received::Message(m) ==> f matches Forward::Write(l) && l@ == framed(m@),
        r is Lagged ==> f is Skip,
        r is Closed ==> f is Stop,
{
    match r {
        Received::Message(m) => Forward::Write(frame_line(m.as_str())),
        Received::Lagged(_) => Forward::Skip,
        Received::Closed => Forward::Stop,
    }
}

/// The outcome of a helper's answer, as the client reads it: success when
/// `ok` is true; otherwise the helper's error text, or `fallback` when it
/// sent none.
pub open spec fn reply_outcome(ok: Option<bool>, error: Option<Seq<char>>, fallback: Seq<char>) -> Result<(), Seq<char>> {
    if ok == Some(true) {
        Ok(())
    } else {
        match error {
            Some(e) => Err(e),
            None => Err(fallback),
        }
    }
}

fn reply(ok: Option<bool>, error: Option<String>, fallback: &str) -> (r: Result<(), String>)
    ensures
        match (r, reply_outcome(ok, opt_view(error), fallback@)) {
            (Ok(_), Ok(_)) => true,
            (Err(e), Err(f)) => e@ == f,
            _ => false,
        },
{
    if ok == Some(true) {
        return Ok(());
    }
    match error {
        Some(e) => Err(e),
        None => Err(String::from_str(fallback)),
    }
}

/// The client's reading of the helper's answer to a connect request.
pub fn helper_connect(ok: Option<bool>, error: Option<String>) -> (r: Result<(), String>)
    ensures
        match (r, reply_outcome(ok, opt_view(error), "Helper connect failed"@)) {
            (Ok(_), Ok(_)) => true,
            (Err(e), Err(f)) => e@ == f,
            _ => false,
        },
{
    reply(ok, error, "Helper connect failed")
}

/// The client's reading of the helper's answer to a disconnect request.
pub fn helper_disconnect(ok: Option<bool>, error: Option<String>) -> (r: Result<(), String>)
    ensures
        match (r, reply_outcome(ok, opt_view(error), "Helper disconnect failed"@)) {
            (Ok(_), Ok(_)) => true,
            (Err(e), Err(f)) => e@ == f,
            _ => false,
        },
{
    reply(ok, error, "Helper disconnect failed")
}

} // verus!
