use stellar_vpn::remotes::parse_openvpn_remotes;

fn r(h: &str, p: u16, t: &str) -> (String, u16, String) {
    (h.to_string(), p, t.to_string())
}

#[test]
fn default_transport_and_port() {
    let c = "client\nremote a.example.com\nremote b.example.com 443\n";
    assert_eq!(
        parse_openvpn_remotes(c),
        vec![r("a.example.com", 1194, "udp"), r("b.example.com", 443, "udp")]
    );
}

#[test]
fn file_transport_applies_to_all_and_is_lowercased() {
    let c = "remote a.example.com 1194\nproto TCP\n  remote   b.example.com\t8443  \r\n";
    assert_eq!(
        parse_openvpn_remotes(c),
        vec![r("a.example.com", 1194, "tcp"), r("b.example.com", 8443, "tcp")]
    );
}

#[test]
fn last_transport_line_wins() {
    let c = "proto tcp\nproto udp6\nremote x 1\n";
    assert_eq!(parse_openvpn_remotes(c), vec![r("x", 1, "udp6")]);
}

#[test]
fn remote_transport_overrides_file_transport() {
    let c = "proto udp\nremote a 1194 TCP\nremote b 1194\n";
    assert_eq!(parse_openvpn_remotes(c), vec![r("a", 1194, "tcp"), r("b", 1194, "udp")]);
}

#[test]
fn comments_blank_and_bad_lines_skipped() {
    let c = "# remote commented 1\n; remote also 2\n\nremote\nremote-random\nremotes x\nremote ok +0080\n";
    assert_eq!(parse_openvpn_remotes(c), vec![r("ok", 80, "udp")]);
}

#[test]
fn unreadable_port_falls_back() {
    let c = "remote a 70000\nremote b abc\nremote c -5\nremote d 65535\nremote e 0\n";
    assert_eq!(
        parse_openvpn_remotes(c),
        vec![r("a", 1194, "udp"), r("b", 1194, "udp"), r("c", 1194, "udp"), r("d", 65535, "udp"), r("e", 0, "udp")]
    );
}

#[test]
fn empty_config_has_no_remotes() {
    assert!(parse_openvpn_remotes("").is_empty());
    assert!(parse_openvpn_remotes("proto tcp\n").is_empty());
}
