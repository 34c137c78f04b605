use stellar_vpn::session::{
    watchdog_is_due, Adoption, ConnectError, EndEvent, OutputEvent, Outcome, Supervisor, MAX_FAILURES,
};
use stellar_vpn::status::St;

fn sup() -> Supervisor {
    Supervisor::new(10_000, 2_000)
}

#[test]
fn status_starts_disconnected() {
    let s = sup();
    assert_eq!(s.status(), St::Disconnected);
    assert!(!s.kill_switch_enabled());
}

#[test]
fn second_connect_is_refused_and_first_session_kept() {
    let mut s = sup();
    let id = s.connect(100).unwrap();
    assert_eq!(s.status(), St::Connecting);
    let before = s;
    assert_eq!(s.connect(200), Err(ConnectError::AlreadyActive));
    assert_eq!(s, before);
    assert_eq!(s.session, Some(id));
}

#[test]
fn session_ids_increase() {
    let mut s = sup();
    let a = s.connect(0).unwrap();
    assert_eq!(s.disconnect(), Some(a));
    let b = s.connect(0).unwrap();
    assert!(b > a);
}

#[test]
fn init_marker_connects() {
    let mut s = sup();
    let id = s.connect(0).unwrap();
    assert!(matches!(s.on_output(id, "Mon Jan 1 Initialization Sequence Completed", 5), OutputEvent::Connected));
    assert_eq!(s.status(), St::Connected);
    assert!(matches!(s.on_output(id, "Initialization Sequence Completed", 6), OutputEvent::Logged));
}

#[test]
fn auth_failure_ends_session_without_retry() {
    let mut s = sup();
    s.set_recovery(true);
    let id = s.connect(0).unwrap();
    match s.on_output(id, "AUTH: Received control message: AUTH_FAILED", 10) {
        OutputEvent::AuthFailed(m) => {
            assert!(!m.is_empty());
            assert_eq!(m, "OpenVPN authentication failed (AUTH_FAILED).");
        }
        _ => panic!("expected an authentication failure"),
    }
    assert_eq!(s.status(), St::Disconnected);
    assert_eq!(s.session, None);
    assert_eq!(s.reconnect(20), Err(ConnectError::NoRetry));
    let mut t = sup();
    let id2 = t.connect(0).unwrap();
    assert!(matches!(t.on_output(id2, "SIGTERM[soft,auth-failure] received", 1), OutputEvent::AuthFailed(_)));
}

#[test]
fn stale_session_reports_change_nothing() {
    let mut s = sup();
    let old_id = s.connect(0).unwrap();
    s.disconnect();
    let new_id = s.connect(50).unwrap();
    assert_eq!(new_id, old_id + 1);
    let before = s;
    assert!(matches!(s.on_output(old_id, "Initialization Sequence Completed", 60), OutputEvent::Stale));
    assert_eq!(s.on_exit(old_id), EndEvent::Stale);
    assert_eq!(s.on_tick(old_id, 1_000_000), EndEvent::Stale);
    assert_eq!(s.start_failed(old_id), EndEvent::Stale);
    assert_eq!(s, before);
    assert_eq!(s.status(), St::Connecting);
}

#[test]
fn watchdog_fires_only_after_deadline_and_quiet_period() {
    let mut s = sup();
    let id = s.connect(1_000).unwrap();
    assert_eq!(s.on_tick(id, 10_999), EndEvent::Stale);
    assert!(matches!(s.on_output(id, "still negotiating", 10_500), OutputEvent::Logged));
    // deadline passed but output came 1.5 s ago
    assert_eq!(s.on_tick(id, 12_000), EndEvent::Stale);
    assert_eq!(s.status(), St::Connecting);
    assert_eq!(
        s.on_tick(id, 12_500),
        EndEvent::Ended { outcome: Outcome::TimedOut, retry: false }
    );
    assert_eq!(s.status(), St::Disconnected);
}

#[test]
fn watchdog_window_bounds() {
    // armed at 0, deadline 10 s, grace 2 s, silent since the start
    assert!(!watchdog_is_due(0, 0, 9_999, 10_000, 2_000));
    assert!(watchdog_is_due(0, 0, 10_000, 10_000, 2_000));
    // output at the deadline: due at deadline + grace
    assert!(!watchdog_is_due(0, 10_000, 11_999, 10_000, 2_000));
    assert!(watchdog_is_due(0, 10_000, 12_000, 10_000, 2_000));
    // a clock that went backwards never fires
    assert!(!watchdog_is_due(5_000, 5_000, 4_000, 0, 0));
}

#[test]
fn watchdog_ignores_connected_session() {
    let mut s = sup();
    let id = s.connect(0).unwrap();
    s.on_output(id, "Initialization Sequence Completed", 1);
    assert_eq!(s.on_tick(id, 1_000_000), EndEvent::Stale);
    assert_eq!(s.status(), St::Connected);
}

#[test]
fn recovery_budget_caps_failures() {
    let mut s = sup();
    s.set_recovery(true);
    let mut id = s.connect(0).unwrap();
    for n in 1..MAX_FAILURES {
        assert_eq!(
            s.on_exit(id),
            EndEvent::Ended { outcome: Outcome::ExitedBeforeConnect, retry: true }
        );
        assert_eq!(s.failures, n);
        id = s.reconnect(0).unwrap();
    }
    assert_eq!(
        s.on_exit(id),
        EndEvent::Ended { outcome: Outcome::ExitedBeforeConnect, retry: false }
    );
    assert_eq!(s.reconnect(0), Err(ConnectError::NoRetry));
    // a manual connect starts afresh
    assert!(s.connect(0).is_ok());
    assert_eq!(s.failures, 0);
}

#[test]
fn exit_after_connect_resets_failures() {
    let mut s = sup();
    s.set_recovery(true);
    let id = s.connect(0).unwrap();
    assert_eq!(s.on_exit(id), EndEvent::Ended { outcome: Outcome::ExitedBeforeConnect, retry: true });
    let id = s.reconnect(0).unwrap();
    s.on_output(id, "Initialization Sequence Completed", 1);
    assert_eq!(s.on_exit(id), EndEvent::Ended { outcome: Outcome::ExitedAfterConnect, retry: true });
    assert_eq!(s.failures, 0);
}

#[test]
fn start_failure_leaves_disconnected() {
    let mut s = sup();
    let id = s.connect(0).unwrap();
    assert_eq!(s.start_failed(id), EndEvent::Ended { outcome: Outcome::SpawnFailed, retry: false });
    assert_eq!(s.status(), St::Disconnected);
    assert!(s.connect(1).is_ok());
}

#[test]
fn disconnect_is_idempotent_and_keeps_kill_switch() {
    let mut s = sup();
    s.set_kill_switch(true);
    s.connect(0).unwrap();
    assert!(s.disconnect().is_some());
    assert_eq!(s.disconnect(), None);
    assert_eq!(s.status(), St::Disconnected);
    assert!(s.kill_switch_enabled());
    s.set_kill_switch(false);
    assert!(!s.kill_switch_enabled());
}

#[test]
fn reconnect_refused_while_active_or_without_recovery() {
    let mut s = sup();
    assert_eq!(s.reconnect(0), Err(ConnectError::NoRetry));
    s.set_recovery(true);
    s.connect(0).unwrap();
    assert_eq!(s.reconnect(0), Err(ConnectError::AlreadyActive));
}

#[test]
fn ids_exhausted() {
    let mut s = sup();
    s.next_id = u64::MAX;
    assert_eq!(s.connect(0), Err(ConnectError::IdsExhausted));
    assert_eq!(s.status(), St::Disconnected);
}

#[test]
fn status_names_round_trip() {
    for st in [St::Disconnected, St::Connecting, St::Connected] {
        assert_eq!(St::from_wire(st.as_str()), st);
    }
    assert_eq!(St::Connecting.as_str(), "connecting");
    assert_eq!(St::from_wire("error: something"), St::Disconnected);
}

#[test]
fn dead_saved_session_is_discarded() {
    let mut s = sup();
    let before = s;
    assert_eq!(s.adopt(true, true, false, 0), Ok(Adoption::Discard));
    assert_eq!(s, before);
}

#[test]
fn live_saved_session_is_adopted() {
    let mut s = sup();
    assert_eq!(
        s.adopt(true, true, true, 500),
        Ok(Adoption::Adopted { id: 1, reapply_firewall: true })
    );
    assert_eq!(s.status(), St::Connecting);
    assert!(s.kill_switch_enabled());
    assert!(s.recovery);
    assert_eq!(s.adopt(false, false, true, 600), Err(ConnectError::AlreadyActive));
    assert!(matches!(s.on_output(1, "Initialization Sequence Completed", 700), OutputEvent::Connected));
    let mut t = sup();
    assert_eq!(
        t.adopt(false, false, true, 0),
        Ok(Adoption::Adopted { id: 1, reapply_firewall: false })
    );
}
