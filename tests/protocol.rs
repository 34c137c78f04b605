use stellar_vpn::protocol::{
    auth_file_contents, engine_args, forward, frame_line, helper_connect, helper_disconnect,
    is_safe_config_path, is_safe_openvpn_path, make_auth_path, probe_target, ConnectDecision,
    Event, Forward, Helper, PathFacts, Received,
};
use stellar_vpn::status::St;
use tokio::sync::broadcast;

fn facts_all() -> PathFacts {
    PathFacts { engine_is_file: true, config_is_file: true, config_exists: true, auth_is_file: true }
}

fn status_value(e: &Event) -> Option<String> {
    match e {
        Event::Status { value } => Some(value.clone()),
        _ => None,
    }
}

fn log_line(e: &Event) -> Option<String> {
    match e {
        Event::Log { line } => Some(line.clone()),
        _ => None,
    }
}

#[test]
fn engine_path_checks() {
    assert!(is_safe_openvpn_path("/usr/sbin/openvpn", true));
    assert!(is_safe_openvpn_path("  /opt/homebrew/sbin/openvpn2.6 \n", true));
    assert!(is_safe_openvpn_path("openvpn", true));
    assert!(!is_safe_openvpn_path("/usr/sbin/openvpn", false));
    assert!(!is_safe_openvpn_path("/bin/sh", true));
    assert!(!is_safe_openvpn_path("/openvpn/bin/sh", true));
    assert!(!is_safe_openvpn_path("   ", true));
    assert_eq!(probe_target("  /usr/sbin/openvpn\t"), "/usr/sbin/openvpn");
}

#[test]
fn aux_path_checks() {
    assert!(is_safe_config_path("/home/u/client.ovpn", true));
    assert!(is_safe_config_path("/tmp/stellar-vpn-desktop/x.ovpn", false));
    assert!(is_safe_config_path("/var/folders/ab/T/x.ovpn", false));
    assert!(!is_safe_config_path("/etc/shadow", false));
    assert!(!is_safe_config_path("/tmp/../etc/shadow", false));
    assert!(!is_safe_config_path("/tmp/a/..", false));
    assert!(is_safe_config_path("/tmp/..hidden", false));
    assert!(!is_safe_config_path("", true));
}

#[test]
fn credential_file() {
    assert_eq!(auth_file_contents("alice", "s3cret"), Ok("alice\ns3cret\n".to_string()));
    assert_eq!(auth_file_contents(" ", "pw"), Err("missing username/password".to_string()));
    assert_eq!(auth_file_contents("alice", ""), Err("missing username/password".to_string()));
    assert_eq!(make_auth_path(1700000000123), "/tmp/stellar-vpn-desktop/auth-1700000000123.txt");
    assert_eq!(make_auth_path(0), "/tmp/stellar-vpn-desktop/auth-0.txt");
}

#[test]
fn engine_arguments() {
    assert_eq!(
        engine_args("/tmp/c.ovpn", "/tmp/a.txt"),
        vec![
            "--config", "/tmp/c.ovpn", "--auth-user-pass", "/tmp/a.txt", "--auth-nocache",
            "--redirect-gateway", "def1", "--verb", "3"
        ]
    );
}

#[test]
fn helper_connect_flow() {
    let mut h = Helper::new();
    assert_eq!(h.status_response().status, Some("disconnected".to_string()));
    let d = h.handle_connect(" /usr/sbin/openvpn ", "/tmp/c.ovpn", "/tmp/a.txt", facts_all());
    let launch = match d {
        ConnectDecision::Launch { kill, launch, program, args, events } => {
            assert!(!kill);
            assert_eq!(program, "/usr/sbin/openvpn");
            assert_eq!(args[1], "/tmp/c.ovpn");
            assert_eq!(status_value(&events[0]), Some("connecting".to_string()));
            assert_eq!(log_line(&events[1]), Some("[mac-helper] starting OpenVPN...".to_string()));
            launch
        }
        ConnectDecision::Reject(_) => panic!("connect should be accepted"),
    };
    assert_eq!(h.status, St::Connecting);
    let (kill, ev) = h.on_output(launch, "Initialization Sequence Completed".to_string());
    assert!(!kill);
    assert_eq!(ev.len(), 2);
    assert_eq!(status_value(&ev[1]), Some("connected".to_string()));
    assert_eq!(h.status, St::Connected);
    let ev = h.child_exited(launch, Some(1));
    assert_eq!(log_line(&ev[0]), Some("[mac-helper] OpenVPN exited (code=1)".to_string()));
    assert_eq!(status_value(&ev[1]), Some("disconnected".to_string()));
    assert_eq!(h.child, None);
    // the watcher of an engine that is gone reports nothing more
    assert!(h.child_exited(launch, None).is_empty());
}

#[test]
fn helper_rejects_unsafe_requests() {
    let mut h = Helper::new();
    let before = h;
    let mut f = facts_all();
    f.engine_is_file = false;
    match h.handle_connect("/usr/sbin/openvpn", "/tmp/c", "/tmp/a", f) {
        ConnectDecision::Reject(r) => {
            assert!(!r.ok);
            assert_eq!(r.error, Some("unsafe openvpn path".to_string()));
        }
        _ => panic!("expected a rejection"),
    }
    let mut f = facts_all();
    f.config_exists = false;
    match h.handle_connect("/usr/sbin/openvpn", "/tmp/c", "/tmp/a", f) {
        ConnectDecision::Reject(r) => assert_eq!(r.error, Some("config path not found/unsafe".to_string())),
        _ => panic!("expected a rejection"),
    }
    let mut f = facts_all();
    f.auth_is_file = false;
    match h.handle_connect("/usr/sbin/openvpn", "/tmp/c", "/etc/passwd", f) {
        ConnectDecision::Reject(r) => assert_eq!(r.error, Some("auth path not found/unsafe".to_string())),
        _ => panic!("expected a rejection"),
    }
    assert_eq!(h, before);
}

#[test]
fn new_connect_replaces_running_engine() {
    let mut h = Helper::new();
    let first = match h.handle_connect("/usr/sbin/openvpn", "/tmp/c", "/tmp/a", facts_all()) {
        ConnectDecision::Launch { launch, .. } => launch,
        _ => panic!(),
    };
    let second = match h.handle_connect("/usr/sbin/openvpn", "/tmp/c", "/tmp/a", facts_all()) {
        ConnectDecision::Launch { kill, launch, .. } => {
            assert!(kill);
            launch
        }
        _ => panic!(),
    };
    assert_ne!(first, second);
    // the killed engine's late reports are ignored
    assert!(h.child_exited(first, Some(0)).is_empty());
    assert_eq!(h.on_output(first, "Initialization Sequence Completed".to_string()).1.len(), 0);
    assert_eq!(h.status, St::Connecting);
    assert_eq!(h.child, Some(second));
}

#[test]
fn helper_spawn_failure_and_auth_failure() {
    let mut h = Helper::new();
    let l = match h.handle_connect("/usr/sbin/openvpn", "/tmp/c", "/tmp/a", facts_all()) {
        ConnectDecision::Launch { launch, .. } => launch,
        _ => panic!(),
    };
    let (ev, resp) = h.spawn_failed(l, "No such file or directory (os error 2)");
    assert_eq!(resp.error, Some("Failed to start openvpn: No such file or directory (os error 2)".to_string()));
    assert_eq!(status_value(&ev[0]), Some("disconnected".to_string()));
    assert_eq!(h.status, St::Disconnected);

    let l = match h.handle_connect("/usr/sbin/openvpn", "/tmp/c", "/tmp/a", facts_all()) {
        ConnectDecision::Launch { launch, .. } => launch,
        _ => panic!(),
    };
    let (kill, ev) = h.on_output(l, "AUTH_FAILED".to_string());
    assert!(kill);
    assert_eq!(log_line(&ev[1]), Some("[mac-helper] AUTH_FAILED detected".to_string()));
    assert_eq!(status_value(&ev[2]), Some("disconnected".to_string()));
    assert_eq!(h.status, St::Disconnected);
}

#[test]
fn helper_disconnect_and_status() {
    let mut h = Helper::new();
    let (kill, ev, resp) = h.handle_disconnect();
    assert!(!kill);
    assert!(resp.ok);
    assert_eq!(resp.error, None);
    assert_eq!(status_value(&ev[0]), Some("disconnected".to_string()));
    h.handle_connect("/usr/sbin/openvpn", "/tmp/c", "/tmp/a", facts_all());
    assert_eq!(status_value(&h.subscribe_event()), Some("connecting".to_string()));
    let (kill, _, _) = h.handle_disconnect();
    assert!(kill);
    let r = h.status_response();
    assert!(r.ok);
    assert_eq!(r.status, Some("disconnected".to_string()));
}

#[test]
fn client_reads_helper_replies() {
    assert_eq!(helper_connect(Some(true), None), Ok(()));
    assert_eq!(helper_connect(Some(false), Some("boom".to_string())), Err("boom".to_string()));
    assert_eq!(helper_connect(None, None), Err("Helper connect failed".to_string()));
    assert_eq!(helper_disconnect(Some(false), None), Err("Helper disconnect failed".to_string()));
    assert_eq!(helper_disconnect(Some(true), Some("ignored".to_string())), Ok(()));
}

#[test]
fn framing() {
    assert_eq!(frame_line("{\"ok\":true}"), "{\"ok\":true}\n");
}

#[test]
fn two_subscribers_and_a_stalled_one() {
    let (tx, mut fast) = broadcast::channel::<String>(4);
    let mut slow = tx.subscribe();
    let mut h = Helper::new();
    let (_, ev, _) = h.handle_disconnect();
    let line = format!("{{\"type\":\"status\",\"value\":\"{}\"}}", status_value(&ev[0]).unwrap());
    tx.send(line.clone()).unwrap();
    for rx in [&mut fast, &mut slow] {
        let got = rx.try_recv().unwrap();
        match forward(Received::Message(got)) {
            Forward::Write(w) => assert_eq!(w, format!("{line}\n")),
            _ => panic!("expected a write"),
        }
    }
    // `slow` stops reading; publishing and `fast` carry on
    for i in 0..10 {
        tx.send(format!("{{\"type\":\"log\",\"line\":\"{i}\"}}")).unwrap();
        let got = fast.try_recv().unwrap();
        assert!(matches!(forward(Received::Message(got)), Forward::Write(_)));
    }
    match slow.try_recv() {
        Err(broadcast::error::TryRecvError::Lagged(n)) => {
            assert!(matches!(forward(Received::Lagged(n)), Forward::Skip));
        }
        other => panic!("expected the stalled subscriber to lag, got {other:?}"),
    }
    assert!(slow.try_recv().is_ok());
    assert!(matches!(forward(Received::Closed), Forward::Stop));
}
