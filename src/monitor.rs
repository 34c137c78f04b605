//! What the subprocess monitor computes: the paths of the tunnel engine's
//! artifacts, the command that starts it as a daemon, its pid file, the
//! lines of its growing log, and the messages of failed sessions.

use crate::text::{
    chars_of, decimal, ends_with_str, has_suffix, parse_u32, parse_u32_spec, push_all,
    push_decimal, push_str, split_open, split_state, string_of, string_views, trim, trim_chars,
    views,
};
use vstd::prelude::*;

verus! {

/// `name` joined to the directory `dir`, as `Path::join` does for a relative
/// name.
pub open spec fn joined(dir: Seq<char>, name: Seq<char>) -> Seq<char> {
    if dir.len() == 0 || has_suffix(dir, "/"@) {
        dir + name
    } else {
        dir + "/"@ + name
    }
}

/// The name of an artifact of a session started at `ms` milliseconds.
pub open spec fn artifact_name(ms: u64, ext: Seq<char>) -> Seq<char> {
    "openvpn-macos-"@ + decimal(ms as nat) + ext
}

fn artifact_path(dir: &str, ms: u64, ext: &str) -> (r: String)
    ensures
        r@ == joined(dir@, artifact_name(ms, ext@)),
{
    let d = chars_of(dir);
    let mut out: Vec<char> = Vec::new();
    push_all(&mut out, &d);
    if !(d.len() == 0 || ends_with_str(&d, "/")) {
        push_str(&mut out, "/");
    }
    push_str(&mut out, "openvpn-macos-");
    push_decimal(&mut out, ms);
    push_str(&mut out, ext);
    assert(out@ =~= joined(dir@, artifact_name(ms, ext@)));
    string_of(&out)
}

/// The engine's log file in the temporary directory `dir`.
pub fn make_log_path(dir: &str, ms: u64) -> (r: String)
    ensures
        r@ == joined(dir@, artifact_name(ms, ".log"@)),
{
    artifact_path(dir, ms, ".log")
}

/// The engine's pid file in the temporary directory `dir`.
pub fn make_pid_path(dir: &str, ms: u64) -> (r: String)
    ensures
        r@ == joined(dir@, artifact_name(ms, ".pid"@)),
{
    artifact_path(dir, ms, ".pid")
}

/// The pid that a pid file's text holds, if it holds one.
pub fn parse_pid(text: &str) -> (r: Option<u32>)
    ensures
        r == parse_u32_spec(trim(text@)),
{
    parse_u32(&trim_chars(&chars_of(text)))
}

/// `s` quoted for a POSIX shell: in single quotes, each single quote written
/// as `'\''`.
pub open spec fn quoted(s: Seq<char>) -> Seq<char> {
    seq!['\''] + quote_body(s) + seq!['\'']
}

pub open spec fn quote_body(s: Seq<char>) -> Seq<char>
    decreases s.len(),
{
    if s.len() == 0 {
        Seq::empty()
    } else {
        quote_body(s.drop_last()) + (if s.last() == '\'' {
            seq!['\'', '\\', '\'', '\'']
        } else {
            seq![s.last()]
        })
    }
}

fn push_quoted(out: &mut Vec<char>, s: &str)
    ensures
        final(out)@ == old(out)@ + quoted(s@),
{
    let v = chars_of(s);
    out.push('\'');
    let ghost start = out@;
    let mut i: usize = 0;
    while i < v.len()
        invariant
            i <= v.len(),
            out@ == start + quote_body(v@.take(i as int)),
        decreases v.len() - i,
    {
        assert(v@.take(i + 1).drop_last() =~= v@.take(i as int));
        if v[i] == '\'' {
            out.push('\'');
            out.push('\\');
            out.push('\'');
            out.push('\'');
        } else {
            out.push(v[i]);
        }
        assert(out@ =~= start + quote_body(v@.take(i + 1)));
        i = i + 1;
    }
    assert(v@.take(v.len() as int) =~= v@);
    out.push('\'');
    assert(out@ =~= old(out)@ + quoted(s@));
}

/// The shell command that starts the tunnel engine as a daemon with its log
/// and pid files.
pub open spec fn daemon_command_text(engine: Seq<char>, config: Seq<char>, auth: Seq<char>, log: Seq<char>, pid: Seq<char>) -> Seq<char> {
    quoted(engine) + " --config "@ + quoted(config) + " --auth-user-pass "@ + quoted(auth)
        + " --auth-nocache --redirect-gateway def1 --verb 3 --log "@ + quoted(log)
        + " --writepid "@ + quoted(pid) + " --daemon"@
}

pub fn daemon_command(engine: &str, config: &str, auth: &str, log: &str, pid: &str) -> (r: String)
    ensures
        r@ == daemon_command_text(engine@, config@, auth@, log@, pid@),
{
    let mut out: Vec<char> = Vec::new();
    push_quoted(&mut out, engine);
    push_str(&mut out, " --config ");
    push_quoted(&mut out, config);
    push_str(&mut out, " --auth-user-pass ");
    push_quoted(&mut out, auth);
    push_str(&mut out, " --auth-nocache --redirect-gateway def1 --verb 3 --log ");
    push_quoted(&mut out, log);
    push_str(&mut out, " --writepid ");
    push_quoted(&mut out, pid);
    push_str(&mut out, " --daemon");
    assert(out@ =~= daemon_command_text(engine@, config@, auth@, log@, pid@));
    string_of(&out)
}

/// Feeds newly appended log text: returns the lines that are now complete,
/// and keeps in `pending` the start of a line whose end has not arrived.
pub fn take_lines(pending: &mut String, chunk: &str) -> (r: Vec<String>)
    ensures
        string_views(r@) == split_state(old(pending)@ + chunk@, false, false).0,
        final(pending)@ == split_state(old(pending)@ + chunk@, false, false).1,
{
    let mut all = chars_of(pending.as_str());
    let c = chars_of(chunk);
    push_all(&mut all, &c);
    let (done, rest) = split_open(&all, false, false);
    let mut r: Vec<String> = Vec::new();
    let mut i: usize = 0;
    while i < done.len()
        invariant
            i <= done.len(),
            r.len() == i,
            string_views(r@) == views(done@).take(i as int),
        decreases done.len() - i,
    {
        let line = string_of(&done[i]);
        assert(line@ == views(done@)[i as int]);
        let ghost before = r@;
        r.push(line);
        assert forall|k: int| 0 <= k < i + 1 implies #[trigger] string_views(r@)[k]
            == views(done@).take(i + 1)[k] by {
            if k < i {
                assert(r@[k] == before[k]);
                assert(string_views(before)[k] == views(done@).take(i as int)[k]);
            }
        }
        assert(string_views(r@) =~= views(done@).take(i + 1));
        i = i + 1;
    }
    assert(views(done@).take(done.len() as int) =~= views(done@));
    *pending = string_of(&rest);
    r
}

/// How many of the engine's last log lines a failure message carries.
pub const LOG_TAIL_LINES: usize = 100;

/// The message of a failed session: the summary, with the tail of the
/// engine's log when there is any.
pub open spec fn failure_text(summary: Seq<char>, tail: Seq<char>) -> Seq<char> {
    if trim(tail).len() == 0 {
        summary + " (no log output)"@
    } else {
        summary + ". Log:\n"@ + tail
    }
}

pub fn failure_message(summary: &str, tail: &str) -> (r: String)
    ensures
        r@ == failure_text(summary@, tail@),
{
    let t = chars_of(tail);
    let mut out = chars_of(summary);
    if trim_chars(&t).len() == 0 {
        push_str(&mut out, " (no log output)");
    } else {
        push_str(&mut out, ". Log:\n");
        push_all(&mut out, &t);
    }
    string_of(&out)
}

} // verus!
