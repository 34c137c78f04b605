//! Installation of the privileged helper as a launch daemon, and the
//! AppleScript wrapping through which shell scripts run with administrator
//! rights.

use crate::text::{chars_of, push_all, push_signed, push_str, signed_decimal, string_of, trim, trim_chars};
use vstd::prelude::*;

verus! {

/// The daemon's label.
pub const LABEL: &'static str = "org.stellarsecurity.vpn.helper";

/// Where the helper binary is installed.
pub const HELPER_INSTALL_PATH: &'static str = "/Library/PrivilegedHelperTools/stellar-vpn-helper-macos";

/// Where the daemon definition is installed.
pub const DAEMON_PLIST_PATH: &'static str = "/Library/LaunchDaemons/org.stellarsecurity.vpn.helper.plist";

/// The socket the helper listens on.
pub const SOCKET_PATH: &'static str = "/tmp/stellar-vpn-helper.sock";

/// The helper's standard output log.
pub const STDOUT_LOG: &'static str = "/var/log/stellar-vpn-helper.log";

/// The helper's standard error log.
pub const STDERR_LOG: &'static str = "/var/log/stellar-vpn-helper.err.log";

/// The escape of one character inside an AppleScript string literal:
/// backslash and double quote get a backslash, and with `newlines` a newline
/// becomes `\n`.
pub open spec fn escape_char(c: char, newlines: bool) -> Seq<char> {
    if c == '\\' {
        seq!['\\', '\\']
    } else if c == '"' {
        seq!['\\', '"']
    } else if newlines && c == '\n' {
        seq!['\\', 'n']
    } else {
        seq![c]
    }
}

/// `s` escaped character by character.
pub open spec fn escaped(s: Seq<char>, newlines: bool) -> Seq<char>
    decreases s.len(),
{
    if s.len() == 0 {
        Seq::empty()
    } else {
        escaped(s.drop_last(), newlines) + escape_char(s.last(), newlines)
    }
}

fn escape(s: &str, newlines: bool) -> (r: String)
    ensures
        r@ == escaped(s@, newlines),
{
    let v = chars_of(s);
    let mut out: Vec<char> = Vec::new();
    let mut i: usize = 0;
    while i < v.len()
        invariant
            i <= v.len(),
            out@ == escaped(v@.take(i as int), newlines),
        decreases v.len() - i,
    {
        let c = v[i];
        assert(v@.take(i + 1).drop_last() =~= v@.take(i as int));
        if c == '\\' {
            out.push('\\');
            out.push('\\');
        } else if c == '"' {
            out.push('\\');
            out.push('"');
        } else if newlines && c == '\n' {
            out.push('\\');
            out.push('n');
        } else {
            out.push(c);
        }
        assert(out@ =~= escaped(v@.take(i + 1), newlines));
        i = i + 1;
    }
    assert(v@.take(v.len() as int) =~= v@);
    string_of(&out)
}

/// Escapes a one-line shell command for an AppleScript string literal.
pub fn escape_applescript(s: &str) -> (r: String)
    ensures
        r@ == escaped(s@, false),
{
    escape(s, false)
}

/// Escapes a multi-line shell script for an AppleScript string literal.
pub fn escape_for_osascript(s: &str) -> (r: String)
    ensures
        r@ == escaped(s@, true),
{
    escape(s, true)
}

/// The AppleScript that runs a shell command with administrator rights.
pub open spec fn admin_script_text(cmd: Seq<char>, newlines: bool) -> Seq<char> {
    "do shell script \""@ + escaped(cmd, newlines) + "\" with administrator privileges"@
}

/// The AppleScript that runs `cmd` with administrator rights; with
/// `multiline`, newlines of `cmd` are escaped too.
pub fn admin_script(cmd: &str, multiline: bool) -> (r: String)
    ensures
        r@ == admin_script_text(cmd@, multiline),
{
    let e = escape(cmd, multiline);
    let mut out: Vec<char> = Vec::new();
    push_str(&mut out, "do shell script \"");
    push_str(&mut out, e.as_str());
    push_str(&mut out, "\" with administrator privileges");
    assert(out@ =~= admin_script_text(cmd@, multiline));
    string_of(&out)
}

/// The outcome of a one-line administrator command, from its exit status and
/// error output.
pub open spec fn command_outcome_text(stderr: Seq<char>) -> Seq<char> {
    if trim(stderr).len() == 0 {
        "osascript failed (no stderr)"@
    } else {
        "osascript failed: "@ + trim(stderr)
    }
}

pub fn command_outcome(success: bool, stderr: &str) -> (r: Result<(), String>)
    ensures
        r is Ok <==> success,
        r is Err ==> r->Err_0@ == command_outcome_text(stderr@),
{
    if success {
        return Ok(());
    }
    let t = trim_chars(&chars_of(stderr));
    if t.len() == 0 {
        Err(String::from_str("osascript failed (no stderr)"))
    } else {
        let mut out: Vec<char> = Vec::new();
        push_str(&mut out, "osascript failed: ");
        push_all(&mut out, &t);
        Err(string_of(&out))
    }
}

/// An exit code as `{:?}` writes an `Option<i32>`.
pub open spec fn code_text(code: Option<i32>) -> Seq<char> {
    match code {
        Some(c) => "Some("@ + signed_decimal(c as int) + ")"@,
        None => "None"@,
    }
}

/// The error text of a failed administrator script.
pub open spec fn script_failure_text(code: Option<i32>, stdout: Seq<char>, stderr: Seq<char>) -> Seq<char> {
    "Command failed (code="@ + code_text(code) + ").\nstdout:\n"@ + stdout + "\nstderr:\n"@ + stderr
}

/// The outcome of an administrator script, from its exit status, exit code
/// and output.
pub fn script_outcome(success: bool, code: Option<i32>, stdout: &str, stderr: &str) -> (r: Result<(), String>)
    ensures
        r is Ok <==> success,
        r is Err ==> r->Err_0@ == script_failure_text(code, stdout@, stderr@),
{
    if success {
        return Ok(());
    }
    let mut out: Vec<char> = Vec::new();
    push_str(&mut out, "Command failed (code=");
    match code {
        Some(c) => {
            push_str(&mut out, "Some(");
            push_signed(&mut out, c as i64);
            push_str(&mut out, ")");
        },
        None => {
            push_str(&mut out, "None");
        },
    }
    push_str(&mut out, ").\nstdout:\n");
    push_str(&mut out, stdout);
    push_str(&mut out, "\nstderr:\n");
    push_str(&mut out, stderr);
    assert(out@ =~= script_failure_text(code, stdout@, stderr@));
    Err(string_of(&out))
}

/// The launch daemon definition of the helper.
pub open spec fn plist_text() -> Seq<char> {
    "<?xml version=\"1.0\" encoding=\"UTF-8\"?>\n<!DOCTYPE plist PUBLIC \"-//Apple//DTD PLIST 1.0//EN\" \"http://www.apple.com/DTDs/PropertyList-1.0.dtd\">\n<plist version=\"1.0\">\n  <dict>\n    <key>Label</key>\n    <string>"@ + LABEL@ + "</string>\n\n    <key>ProgramArguments</key>\n    <array>\n      <string>"@ + HELPER_INSTALL_PATH@ + "</string>\n      <string>--socket</string>\n      <string>"@ + SOCKET_PATH@ + "</string>\n    </array>\n\n    <key>RunAtLoad</key>\n    <true/>\n\n    <key>KeepAlive</key>\n    <true/>\n\n    <key>StandardOutPath</key>\n    <string>"@ + STDOUT_LOG@ + "</string>\n\n    <key>StandardErrorPath</key>\n    <string>"@ + STDERR_LOG@ + "</string>\n  </dict>\n</plist>\n"@
}

/// The launch daemon definition of the helper: it runs the installed helper on
/// the socket path, at load and kept alive, with its output in the log files.
pub fn build_plist() -> (r: String)
    ensures
        r@ == plist_text(),
{
    let mut out: Vec<char> = Vec::new();
    push_str(&mut out, "<?xml version=\"1.0\" encoding=\"UTF-8\"?>\n<!DOCTYPE plist PUBLIC \"-//Apple//DTD PLIST 1.0//EN\" \"http://www.apple.com/DTDs/PropertyList-1.0.dtd\">\n<plist version=\"1.0\">\n  <dict>\n    <key>Label</key>\n    <string>");
    push_str(&mut out, LABEL);
    push_str(&mut out, "</string>\n\n    <key>ProgramArguments</key>\n    <array>\n      <string>");
    push_str(&mut out, HELPER_INSTALL_PATH);
    push_str(&mut out, "</string>\n      <string>--socket</string>\n      <string>");
    push_str(&mut out, SOCKET_PATH);
    push_str(&mut out, "</string>\n    </array>\n\n    <key>RunAtLoad</key>\n    <true/>\n\n    <key>KeepAlive</key>\n    <true/>\n\n    <key>StandardOutPath</key>\n    <string>");
    push_str(&mut out, STDOUT_LOG);
    push_str(&mut out, "</string>\n\n    <key>StandardErrorPath</key>\n    <string>");
    push_str(&mut out, STDERR_LOG);
    push_str(&mut out, "</string>\n  </dict>\n</plist>\n");
    assert(out@ =~= plist_text());
    string_of(&out)
}

/// The shell script that installs the helper from `helper_src` and starts it.
pub open spec fn install_text(helper_src: Seq<char>) -> Seq<char> {
    "\nset -e\n\nmkdir -p /Library/PrivilegedHelperTools\nmkdir -p /Library/LaunchDaemons\n\n# install helper\ncp \""@ + helper_src + "\" \""@ + HELPER_INSTALL_PATH@ + "\"\nchown root:wheel \""@ + HELPER_INSTALL_PATH@ + "\"\nchmod 755 \""@ + HELPER_INSTALL_PATH@ + "\"\n\n# remove quarantine (if present)\nxattr -dr com.apple.quarantine \""@ + HELPER_INSTALL_PATH@ + "\" 2>/dev/null || true\n\n# write plist\ncat > \""@ + DAEMON_PLIST_PATH@ + "\" << 'PLISTEOF'\n"@ + plist_text() + "\nPLISTEOF\n\nchown root:wheel \""@ + DAEMON_PLIST_PATH@ + "\"\nchmod 644 \""@ + DAEMON_PLIST_PATH@ + "\"\n\n# validate plist (prevents vague \"Bootstrap failed: 5\" issues)\nplutil -lint \""@ + DAEMON_PLIST_PATH@ + "\"\n\n# ensure log files exist (optional)\ntouch \""@ + STDOUT_LOG@ + "\" \""@ + STDERR_LOG@ + "\" || true\nchmod 644 \""@ + STDOUT_LOG@ + "\" \""@ + STDERR_LOG@ + "\" || true\n\n# stop previous instance (ignore errors)\nlaunchctl bootout system/"@ + LABEL@ + " 2>/dev/null || true\n\n# load new\nlaunchctl bootstrap system \""@ + DAEMON_PLIST_PATH@ + "\"\nlaunchctl kickstart -k system/"@ + LABEL@ + "\n\nexit 0\n"@
}

/// The shell script, run with administrator rights, that installs the helper
/// binary from `helper_src` and its daemon definition and (re)starts the daemon.
pub fn install_or_update_files(helper_src: &str) -> (r: String)
    ensures
        r@ == install_text(helper_src@),
{
    let plist = chars_of(build_plist().as_str());
    let mut out: Vec<char> = Vec::new();
    push_str(&mut out, "\nset -e\n\nmkdir -p /Library/PrivilegedHelperTools\nmkdir -p /Library/LaunchDaemons\n\n# install helper\ncp \"");
    push_str(&mut out, helper_src);
    push_str(&mut out, "\" \"");
    push_str(&mut out, HELPER_INSTALL_PATH);
    push_str(&mut out, "\"\nchown root:wheel \"");
    push_str(&mut out, HELPER_INSTALL_PATH);
    push_str(&mut out, "\"\nchmod 755 \"");
    push_str(&mut out, HELPER_INSTALL_PATH);
    push_str(&mut out, "\"\n\n# remove quarantine (if present)\nxattr -dr com.apple.quarantine \"");
    push_str(&mut out, HELPER_INSTALL_PATH);
    push_str(&mut out, "\" 2>/dev/null || true\n\n# write plist\ncat > \"");
    push_str(&mut out, DAEMON_PLIST_PATH);
    push_str(&mut out, "\" << 'PLISTEOF'\n");
    push_all(&mut out, &plist);
    push_str(&mut out, "\nPLISTEOF\n\nchown root:wheel \"");
    push_str(&mut out, DAEMON_PLIST_PATH);
    push_str(&mut out, "\"\nchmod 644 \"");
    push_str(&mut out, DAEMON_PLIST_PATH);
    push_str(&mut out, "\"\n\n# validate plist (prevents vague \"Bootstrap failed: 5\" issues)\nplutil -lint \"");
    push_str(&mut out, DAEMON_PLIST_PATH);
    push_str(&mut out, "\"\n\n# ensure log files exist (optional)\ntouch \"");
    push_str(&mut out, STDOUT_LOG);
    push_str(&mut out, "\" \"");
    push_str(&mut out, STDERR_LOG);
    push_str(&mut out, "\" || true\nchmod 644 \"");
    push_str(&mut out, STDOUT_LOG);
    push_str(&mut out, "\" \"");
    push_str(&mut out, STDERR_LOG);
    push_str(&mut out, "\" || true\n\n# stop previous instance (ignore errors)\nlaunchctl bootout system/");
    push_str(&mut out, LABEL);
    push_str(&mut out, " 2>/dev/null || true\n\n# load new\nlaunchctl bootstrap system \"");
    push_str(&mut out, DAEMON_PLIST_PATH);
    push_str(&mut out, "\"\nlaunchctl kickstart -k system/");
    push_str(&mut out, LABEL);
    push_str(&mut out, "\n\nexit 0\n");
    assert(out@ =~= install_text(helper_src@));
    string_of(&out)
}

/// The shell script that removes the helper.
pub open spec fn uninstall_text() -> Seq<char> {
    "\nset -e\n\nlaunchctl bootout system/"@ + LABEL@ + " 2>/dev/null || true\n\nrm -f \""@ + DAEMON_PLIST_PATH@ + "\" || true\nrm -f \""@ + HELPER_INSTALL_PATH@ + "\" || true\nrm -f \""@ + SOCKET_PATH@ + "\" || true\n\nexit 0\n"@
}

/// The shell script, run with administrator rights, that stops the daemon and
/// removes its definition, the helper binary and the socket.
pub fn uninstall_root_helper() -> (r: String)
    ensures
        r@ == uninstall_text(),
{
    let mut out: Vec<char> = Vec::new();
    push_str(&mut out, "\nset -e\n\nlaunchctl bootout system/");
    push_str(&mut out, LABEL);
    push_str(&mut out, " 2>/dev/null || true\n\nrm -f \"");
    push_str(&mut out, DAEMON_PLIST_PATH);
    push_str(&mut out, "\" || true\nrm -f \"");
    push_str(&mut out, HELPER_INSTALL_PATH);
    push_str(&mut out, "\" || true\nrm -f \"");
    push_str(&mut out, SOCKET_PATH);
    push_str(&mut out, "\" || true\n\nexit 0\n");
    assert(out@ =~= uninstall_text());
    string_of(&out)
}

} // verus!
