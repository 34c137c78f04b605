use stellar_vpn::killswitch::{
    build_script, delete_outcome, enable_script, removal_confirmed, script_outcome, Addr,
    HostLookup, ResolvedRemote,
};
use stellar_vpn::remotes::parse_openvpn_remotes;

const HEADER: &str = "add table inet stellarkillswitch\n\
add chain inet stellarkillswitch output { type filter hook output priority 0; policy accept; }\n\
flush chain inet stellarkillswitch output\n\
add rule inet stellarkillswitch output oifname \"lo\" accept\n\
add rule inet stellarkillswitch output ct state established,related accept\n\
add rule inet stellarkillswitch output oifname { \"tun\", \"tun0\", \"tun1\", \"tun2\", \"tun3\", \"tun4\", \"tun5\", \"tun6\", \"tun7\", \"tun8\", \"tun9\", \"tap0\", \"tap1\", \"tap2\", \"tap3\", \"tap4\", \"tap5\", \"tap6\", \"tap7\", \"tap8\", \"tap9\" } accept\n\
add rule inet stellarkillswitch output udp dport 53 accept\n\
add rule inet stellarkillswitch output tcp dport 53 accept\n";

const DROP: &str = "add rule inet stellarkillswitch output drop\n";

fn v4(s: &str) -> Addr {
    Addr { v6: false, text: s.to_string() }
}

fn remote(host: &str, port: u16, proto: &str, lookup: HostLookup) -> ResolvedRemote {
    ResolvedRemote { host: host.to_string(), port, proto: proto.to_string(), lookup }
}

#[test]
fn resolved_remote_gets_exact_rules() {
    let remotes = parse_openvpn_remotes("client\nremote vpn.example.com 1194 udp\n");
    assert_eq!(remotes, vec![("vpn.example.com".to_string(), 1194, "udp".to_string())]);
    let (host, port, proto) = remotes[0].clone();
    let r = remote(&host, port, &proto, HostLookup::Resolved(vec![v4("203.0.113.7")]));
    let script = build_script(vec![r], None).unwrap();
    let expected = format!(
        "{HEADER}add rule inet stellarkillswitch output ip daddr 203.0.113.7 udp dport 1194 accept\n{DROP}"
    );
    assert_eq!(script, expected);
    assert!(script.ends_with(DROP));
    assert!(script.contains("oifname \"lo\" accept"));
    assert!(script.contains("ct state established,related accept"));
    assert!(script.contains("\"tun0\""));
    assert!(script.contains("udp dport 53 accept"));
}

#[test]
fn disabling_removes_table_even_when_missing() {
    assert_eq!(delete_outcome(true, Some(0), ""), Ok(()));
    assert_eq!(
        delete_outcome(false, Some(1), "Error: No such file or directory; did you mean table"),
        Ok(())
    );
    assert_eq!(delete_outcome(false, Some(1), "table does not exist"), Ok(()));
    assert_eq!(removal_confirmed(false, "Error: No such file or directory"), Ok(()));
}

#[test]
fn failed_removal_is_reported() {
    assert_eq!(
        delete_outcome(false, Some(2), "permission denied"),
        Err("Failed to delete kill switch table (exit=2):\npermission denied".to_string())
    );
    assert_eq!(
        delete_outcome(false, None, "x"),
        Err("Failed to delete kill switch table (exit=-1):\nx".to_string())
    );
    assert_eq!(
        removal_confirmed(true, ""),
        Err("kill switch table is still present after removal".to_string())
    );
    assert_eq!(
        removal_confirmed(false, "nft: command not found"),
        Err("could not confirm that the kill switch table is gone".to_string())
    );
}

#[test]
fn script_run_outcome() {
    assert_eq!(script_outcome(true, Some(0), "ignored"), Ok(()));
    assert_eq!(
        script_outcome(false, Some(1), "syntax error"),
        Err("nft failed (exit=1):\nsyntax error".to_string())
    );
}

#[test]
fn reapplying_gives_identical_script() {
    let mk = || {
        vec![
            remote("10.0.0.1", 443, "tcp", HostLookup::Literal(v4("10.0.0.1"))),
            remote("vpn.example.com", 1194, "udp", HostLookup::Resolved(vec![])),
        ]
    };
    let a = build_script(mk(), None).unwrap();
    let b = build_script(mk(), None).unwrap();
    assert_eq!(a, b);
    assert!(a.starts_with("add table inet stellarkillswitch\n"));
    assert!(a.contains("flush chain inet stellarkillswitch output\n"));
}

#[test]
fn literal_tcp_and_ipv6_and_fallback() {
    let remotes = vec![
        remote("10.0.0.1", 443, "tcp-client", HostLookup::Literal(v4("10.0.0.1"))),
        remote(
            "2001:db8::1",
            1194,
            "udp6",
            HostLookup::Literal(Addr { v6: true, text: "2001:db8::1".to_string() }),
        ),
        remote("down.example.com", 1195, "udp", HostLookup::Resolved(vec![])),
        remote(
            "multi.example.com",
            80,
            "tcp",
            HostLookup::Resolved(vec![v4("192.0.2.1"), v4("192.0.2.2")]),
        ),
    ];
    let script = build_script(remotes, None).unwrap();
    let expected = format!(
        "{HEADER}\
add rule inet stellarkillswitch output ip daddr 10.0.0.1 tcp dport 443 accept\n\
add rule inet stellarkillswitch output ip6 daddr 2001:db8::1 udp dport 1194 accept\n\
add rule inet stellarkillswitch output udp dport 1195 accept\n\
add rule inet stellarkillswitch output ip daddr 192.0.2.1 tcp dport 80 accept\n\
add rule inet stellarkillswitch output ip daddr 192.0.2.2 tcp dport 80 accept\n{DROP}"
    );
    assert_eq!(script, expected);
}

#[test]
fn learned_address_tightens_fallback() {
    let remotes = vec![remote("vpn.example.com", 1194, "udp", HostLookup::Resolved(vec![]))];
    let script = build_script(remotes, Some(v4("198.51.100.9"))).unwrap();
    let expected = format!(
        "{HEADER}add rule inet stellarkillswitch output ip daddr 198.51.100.9 udp dport 1194 accept\n{DROP}"
    );
    assert_eq!(script, expected);
}

#[test]
fn no_remotes_is_an_error() {
    assert_eq!(
        build_script(vec![], None),
        Err("No VPN remotes could be allowed. Invalid config?".to_string())
    );
    assert_eq!(
        enable_script(vec![], None),
        Err("No 'remote' entries found in config".to_string())
    );
}

#[test]
fn enable_script_matches_build_script() {
    let mk = || vec![remote("1.2.3.4", 65535, "udp", HostLookup::Literal(v4("1.2.3.4")))];
    let a = enable_script(mk(), None).unwrap();
    assert_eq!(a, build_script(mk(), None).unwrap());
    assert!(a.contains("ip daddr 1.2.3.4 udp dport 65535 accept\n"));
}
