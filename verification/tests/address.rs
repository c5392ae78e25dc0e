use localproxy::address::{merge_u16, push_decimal};
use localproxy::{addr_to_socket, AddrType, Destination, TargetAddr};

#[test]
fn merge_port_bytes() {
    assert_eq!(merge_u16(0x1f, 0x90), 8080);
    assert_eq!(merge_u16(0, 80), 80);
    assert_eq!(merge_u16(0xff, 0xff), 65535);
    assert_eq!(merge_u16(1, 0), 256);
}

#[test]
fn decimal_port_text() {
    let mut s = String::from("host:");
    push_decimal(&mut s, 8080);
    assert_eq!(s, "host:8080");
    let mut s = String::new();
    push_decimal(&mut s, 0);
    assert_eq!(s, "0");
    let mut s = String::new();
    push_decimal(&mut s, 65535);
    assert_eq!(s, "65535");
    let mut s = String::new();
    push_decimal(&mut s, 10);
    assert_eq!(s, "10");
}

#[test]
fn ipv4_target() {
    let d = addr_to_socket(&AddrType::V4, &[127, 0, 0, 1], 1080);
    assert_eq!(
        d,
        Destination::Direct(vec![TargetAddr::V4 { octets: [127, 0, 0, 1], port: 1080 }])
    );
}

#[test]
fn ipv6_target() {
    let addr = [
        0x20, 0x01, 0x0d, 0xb8, 0, 0, 0, 0, 0, 0, 0, 0, 0, 0, 0x12, 0x34,
    ];
    let d = addr_to_socket(&AddrType::V6, &addr, 443);
    assert_eq!(
        d,
        Destination::Direct(vec![TargetAddr::V6 {
            segments: [0x2001, 0x0db8, 0, 0, 0, 0, 0, 0x1234],
            port: 443,
            flowinfo: 0,
            scope_id: 0,
        }])
    );
}

#[test]
fn domain_target() {
    let d = addr_to_socket(&AddrType::Domain, b"example.com", 80);
    assert_eq!(d, Destination::Lookup(String::from("example.com:80")));
}

#[test]
fn domain_target_with_invalid_utf8() {
    let d = addr_to_socket(&AddrType::Domain, &[0xff, b'a'], 8080);
    assert_eq!(d, Destination::Lookup(String::from("\u{FFFD}a:8080")));
}

#[test]
fn empty_domain_target() {
    let d = addr_to_socket(&AddrType::Domain, &[], 7);
    assert_eq!(d, Destination::Lookup(String::from(":7")));
}
