use stellar_vpn::installer::{
    admin_script, build_plist, command_outcome, escape_applescript, escape_for_osascript,
    install_or_update_files, script_outcome, uninstall_root_helper,
};
use stellar_vpn::monitor::{
    daemon_command, failure_message, make_log_path, make_pid_path, parse_pid, take_lines,
};

#[test]
fn escaping() {
    assert_eq!(escape_applescript("say \"hi\" \\ now\n"), "say \\\"hi\\\" \\\\ now\n");
    assert_eq!(escape_for_osascript("a\"b\\c\nd"), "a\\\"b\\\\c\\nd");
    assert_eq!(escape_applescript(""), "");
}

#[test]
fn admin_wrapping() {
    assert_eq!(
        admin_script("kill -TERM 42", false),
        "do shell script \"kill -TERM 42\" with administrator privileges"
    );
    assert_eq!(
        admin_script("a\nb", true),
        "do shell script \"a\\nb\" with administrator privileges"
    );
}

#[test]
fn admin_outcomes() {
    assert_eq!(command_outcome(true, "x"), Ok(()));
    assert_eq!(command_outcome(false, "  \n"), Err("osascript failed (no stderr)".to_string()));
    assert_eq!(command_outcome(false, " denied \n"), Err("osascript failed: denied".to_string()));
    assert_eq!(
        script_outcome(false, Some(-128), "o", "e"),
        Err("Command failed (code=Some(-128)).\nstdout:\no\nstderr:\ne".to_string())
    );
    assert_eq!(
        script_outcome(false, None, "", ""),
        Err("Command failed (code=None).\nstdout:\n\nstderr:\n".to_string())
    );
    assert_eq!(script_outcome(true, None, "", ""), Ok(()));
}

#[test]
fn plist_and_scripts() {
    let p = build_plist();
    assert!(p.starts_with("<?xml version=\"1.0\" encoding=\"UTF-8\"?>\n"));
    assert!(p.contains("<string>org.stellarsecurity.vpn.helper</string>"));
    assert!(p.contains("<string>/Library/PrivilegedHelperTools/stellar-vpn-helper-macos</string>\n      <string>--socket</string>\n      <string>/tmp/stellar-vpn-helper.sock</string>"));
    assert!(p.ends_with("</plist>\n"));
    let s = install_or_update_files("/Applications/X.app/bin/helper");
    assert!(s.starts_with("\nset -e\n"));
    assert!(s.contains("cp \"/Applications/X.app/bin/helper\" \"/Library/PrivilegedHelperTools/stellar-vpn-helper-macos\"\n"));
    assert!(s.contains(&format!("<< 'PLISTEOF'\n{p}\nPLISTEOF\n")));
    assert!(s.contains("launchctl kickstart -k system/org.stellarsecurity.vpn.helper\n"));
    let u = uninstall_root_helper();
    assert_eq!(
        u,
        "\nset -e\n\nlaunchctl bootout system/org.stellarsecurity.vpn.helper 2>/dev/null || true\n\n\
rm -f \"/Library/LaunchDaemons/org.stellarsecurity.vpn.helper.plist\" || true\n\
rm -f \"/Library/PrivilegedHelperTools/stellar-vpn-helper-macos\" || true\n\
rm -f \"/tmp/stellar-vpn-helper.sock\" || true\n\nexit 0\n"
    );
}

#[test]
fn artifact_paths() {
    assert_eq!(make_log_path("/tmp/x", 12), "/tmp/x/openvpn-macos-12.log");
    assert_eq!(make_pid_path("/tmp/x/", 12), "/tmp/x/openvpn-macos-12.pid");
    assert_eq!(make_log_path("", 7), "openvpn-macos-7.log");
}

#[test]
fn pid_files() {
    assert_eq!(parse_pid("1234\n"), Some(1234));
    assert_eq!(parse_pid(""), None);
    assert_eq!(parse_pid("12a"), None);
    assert_eq!(parse_pid("4294967295"), Some(u32::MAX));
    assert_eq!(parse_pid("4294967296"), None);
}

#[test]
fn daemon_command_quotes_paths() {
    assert_eq!(
        daemon_command("/usr/local/sbin/openvpn", "/tmp/c.ovpn", "/tmp/a", "/tmp/l", "/tmp/p"),
        "'/usr/local/sbin/openvpn' --config '/tmp/c.ovpn' --auth-user-pass '/tmp/a' --auth-nocache --redirect-gateway def1 --verb 3 --log '/tmp/l' --writepid '/tmp/p' --daemon"
    );
    assert_eq!(
        daemon_command("o", "it's", "a", "l", "p"),
        "'o' --config 'it'\\''s' --auth-user-pass 'a' --auth-nocache --redirect-gateway def1 --verb 3 --log 'l' --writepid 'p' --daemon"
    );
}

#[test]
fn log_lines_are_taken_whole() {
    let mut pending = String::new();
    assert!(take_lines(&mut pending, "partial").is_empty());
    assert_eq!(pending, "partial");
    let l = take_lines(&mut pending, " line\nnext\n\nlast");
    assert_eq!(l, vec!["partial line".to_string(), "next".to_string(), String::new()]);
    assert_eq!(pending, "last");
}

#[test]
fn failure_messages() {
    assert_eq!(failure_message("OpenVPN did not start", " \n"), "OpenVPN did not start (no log output)");
    assert_eq!(failure_message("OpenVPN exited", "boom\n"), "OpenVPN exited. Log:\nboom\n");
}
