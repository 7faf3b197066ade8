use leaf::addr::{format_ipv4, format_ipv6, parse_ip, parse_ipv4, parse_ipv6, Endpoint, Ip, SocksAddr};
use leaf::error::ErrorKind;
use leaf::handler::UdpTransportType;
use leaf::netstack::NetStack;
use leaf::redirect::RedirectTarget;
use leaf::socks::{accept_udp_reply, SocksOutbound};

fn ep(ip: u32, port: u16) -> Endpoint {
    Endpoint { ip: Ip::V4(ip), port }
}

#[test]
fn v4_addresses_print_in_dotted_form() {
    assert_eq!(format_ipv4(0x0A000001), "10.0.0.1");
    assert_eq!(format_ipv4(0), "0.0.0.0");
    assert_eq!(format_ipv4(0xFFFFFFFF), "255.255.255.255");
    assert_eq!(format_ipv4(0xC0A80A63), "192.168.10.99");
}

#[test]
fn v6_addresses_print_as_eight_groups() {
    assert_eq!(format_ipv6(1), "0000:0000:0000:0000:0000:0000:0000:0001");
    assert_eq!(
        format_ipv6(0x20010DB8000000000000000000000042),
        "2001:0db8:0000:0000:0000:0000:0000:0042"
    );
}

#[test]
fn hosts_and_ports_follow_the_destination_form() {
    let numeric = SocksAddr::Ip(ep(0x08080808, 53));
    assert_eq!(numeric.host(), "8.8.8.8");
    assert_eq!(numeric.port(), 53);
    let domain = SocksAddr::Domain("example.test".to_string(), 8443);
    assert_eq!(domain.host(), "example.test");
    assert_eq!(domain.port(), 8443);
}

#[test]
fn dotted_quads_parse_to_their_value() {
    assert_eq!(parse_ipv4("10.0.0.2"), Some(0x0A000002));
    assert_eq!(parse_ipv4("0.0.0.0"), Some(0));
    assert_eq!(parse_ipv4("255.255.255.255"), Some(0xFFFFFFFF));
    assert_eq!(parse_ipv4("1.22.133.44"), Some(0x0116852C));
}

#[test]
fn malformed_quads_are_rejected() {
    assert_eq!(parse_ipv4(""), None);
    assert_eq!(parse_ipv4("1.2.3"), None);
    assert_eq!(parse_ipv4("1.2.3.4.5"), None);
    assert_eq!(parse_ipv4("256.1.1.1"), None);
    assert_eq!(parse_ipv4("01.2.3.4"), None);
    assert_eq!(parse_ipv4("1.2.3.4 "), None);
    assert_eq!(parse_ipv4("a.b.c.d"), None);
    assert_eq!(parse_ipv4("1..2.3"), None);
}

#[test]
fn printing_then_parsing_is_the_identity() {
    for ip in [0u32, 1, 0x0A000001, 0xC0A80A63, 0xFFFFFFFF, 0x01020304] {
        assert_eq!(parse_ipv4(&format_ipv4(ip)), Some(ip));
    }
}

#[test]
fn redirect_target_comes_from_the_config() {
    let t = RedirectTarget::from_config("8.8.8.8", 53).unwrap();
    assert_eq!(t.target, ep(0x08080808, 53));
    let bad = RedirectTarget::from_config("not-an-address", 53);
    assert_eq!(bad.unwrap_err().kind, ErrorKind::InvalidConfig);
}

#[test]
fn redirect_sends_to_the_recorded_target_not_the_caller_peer() {
    let t = RedirectTarget::new(ep(0x08080808, 53));
    let caller_peer = ep(0x01010101, 9999);
    let payload = vec![1u8, 2, 3, 4];
    let (bytes, dest) = t.send_plan(payload.clone(), &caller_peer);
    assert_eq!(bytes, payload);
    assert_eq!(dest, ep(0x08080808, 53));
}

#[test]
fn redirect_reports_the_recorded_target_as_peer() {
    let t = RedirectTarget::new(ep(0x08080808, 53));
    let actual_source = ep(0x7F000001, 1234);
    assert_eq!(t.recv_peer(&actual_source), ep(0x08080808, 53));
}

#[test]
fn socks_outbound_advertises_its_server() {
    let h = SocksOutbound::new("proxy.test".to_string(), 1080, ep(0, 0));
    let a = h.connect_addr();
    assert_eq!(a.host, "proxy.test");
    assert_eq!(a.port, 1080);
    assert_eq!(a.bind, ep(0, 0));
    assert_eq!(h.transport_type(), UdpTransportType::Packet);
}

#[test]
fn numeric_reply_addresses_surface_to_the_caller() {
    let peer = SocksAddr::Ip(ep(0x05060708, 4444));
    let r = accept_udp_reply(17, &peer).unwrap();
    assert_eq!(r, (17, ep(0x05060708, 4444)));
}

#[test]
fn domain_reply_addresses_are_unsupported() {
    let peer = SocksAddr::Domain("relay.test".to_string(), 4444);
    let e = accept_udp_reply(17, &peer).unwrap_err();
    assert_eq!(e.kind, ErrorKind::UnsupportedAddress);
}

#[test]
fn netstack_preserves_byte_order_in_both_directions() {
    let mut s = NetStack::new();
    assert_eq!(s.write_bytes(&[1, 2, 3]), 3);
    assert_eq!(s.write_bytes(&[4, 5]), 2);
    assert_eq!(s.take_outbound(), vec![1, 2, 3, 4, 5]);
    assert_eq!(s.take_outbound(), Vec::<u8>::new());

    s.feed_inbound(&[9, 8, 7, 6]);
    assert_eq!(s.read_bytes(2), vec![9, 8]);
    s.feed_inbound(&[5]);
    assert_eq!(s.read_bytes(10), vec![7, 6, 5]);
    assert_eq!(s.read_bytes(10), Vec::<u8>::new());
}

#[test]
fn socks_addr_equality_is_structural() {
    assert_eq!(SocksAddr::Ip(ep(1, 2)), SocksAddr::Ip(ep(1, 2)));
    assert_ne!(SocksAddr::Ip(ep(1, 2)), SocksAddr::Ip(ep(1, 3)));
    assert_eq!(
        SocksAddr::Domain("a.test".to_string(), 80),
        SocksAddr::Domain("a.test".to_string(), 80)
    );
    assert_ne!(
        SocksAddr::Domain("a.test".to_string(), 80),
        SocksAddr::Domain("b.test".to_string(), 80)
    );
    assert_ne!(SocksAddr::Ip(ep(1, 80)), SocksAddr::Domain("a.test".to_string(), 80));
}

#[test]
fn v6_literals_parse_to_their_value() {
    assert_eq!(parse_ipv6("::"), Some(0));
    assert_eq!(parse_ipv6("::1"), Some(1));
    assert_eq!(parse_ipv6("1::"), Some(1u128 << 112));
    assert_eq!(
        parse_ipv6("2001:db8::42"),
        Some(0x20010DB8000000000000000000000042)
    );
    assert_eq!(
        parse_ipv6("2001:0DB8::0042"),
        Some(0x20010DB8000000000000000000000042)
    );
    assert_eq!(
        parse_ipv6("1:2:3:4:5:6:7:8"),
        Some(0x00010002000300040005000600070008)
    );
    assert_eq!(parse_ipv6("1:2:3:4:5:6:7::"), Some(0x00010002000300040005000600070000));
    assert_eq!(parse_ipv6("fe80::1%eth0"), None);
    assert_eq!(parse_ipv6("::ffff:1.2.3.4"), Some(0x00000000000000000000FFFF01020304));
    assert_eq!(parse_ipv6("1:2:3:4:5:6:1.2.3.4"), Some(0x00010002000300040005000601020304));
}

#[test]
fn malformed_v6_literals_are_rejected() {
    assert_eq!(parse_ipv6(""), None);
    assert_eq!(parse_ipv6(":"), None);
    assert_eq!(parse_ipv6(":::"), None);
    assert_eq!(parse_ipv6("1:2"), None);
    assert_eq!(parse_ipv6("1::2::3"), None);
    assert_eq!(parse_ipv6("1:2:3:4:5:6:7:8:9"), None);
    assert_eq!(parse_ipv6("1:2:3:4:5:6:7:8::"), None);
    assert_eq!(parse_ipv6("::1:2:3:4:5:6:7:8"), None);
    assert_eq!(parse_ipv6("12345::"), None);
    assert_eq!(parse_ipv6("g::"), None);
    assert_eq!(parse_ipv6("1.2.3.4"), None);
    assert_eq!(parse_ipv6("::256.1.1.1"), None);
}

#[test]
fn numeric_hosts_parse_as_either_family() {
    assert_eq!(parse_ip("8.8.8.8"), Some(Ip::V4(0x08080808)));
    assert_eq!(parse_ip("::1"), Some(Ip::V6(1)));
    assert_eq!(parse_ip("example.test"), None);
}

#[test]
fn v6_printing_then_parsing_is_the_identity() {
    for ip in [0u128, 1, 1u128 << 112, 0x20010DB8000000000000000000000042, u128::MAX] {
        assert_eq!(parse_ipv6(&format_ipv6(ip)), Some(ip));
    }
}

#[test]
fn redirect_target_accepts_a_v6_config() {
    let t = RedirectTarget::from_config("::1", 53).unwrap();
    assert_eq!(t.target, Endpoint { ip: Ip::V6(1), port: 53 });
    let t2 = RedirectTarget::from_config("2001:db8::42", 8053).unwrap();
    assert_eq!(
        t2.target,
        Endpoint { ip: Ip::V6(0x20010DB8000000000000000000000042), port: 8053 }
    );
}
