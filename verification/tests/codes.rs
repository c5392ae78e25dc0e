use localproxy::codes::{RESERVED, SOCKS_VERSION};
use localproxy::{AddrType, ResponseCode, SockCommand, SocksReply};

#[test]
fn command_from_known_codes() {
    assert_eq!(SockCommand::from(1), Some(SockCommand::Connect));
    assert_eq!(SockCommand::from(2), Some(SockCommand::Bind));
    assert_eq!(SockCommand::from(3), Some(SockCommand::UdpAssosiate));
}

#[test]
fn command_from_unknown_codes() {
    assert_eq!(SockCommand::from(0), None);
    assert_eq!(SockCommand::from(4), None);
    assert_eq!(SockCommand::from(255), None);
    assert_eq!(SockCommand::from(257), None);
}

#[test]
fn addr_type_from_known_codes() {
    assert_eq!(AddrType::from(1), Some(AddrType::V4));
    assert_eq!(AddrType::from(3), Some(AddrType::Domain));
    assert_eq!(AddrType::from(4), Some(AddrType::V6));
}

#[test]
fn addr_type_from_unknown_codes() {
    assert_eq!(AddrType::from(0), None);
    assert_eq!(AddrType::from(2), None);
    assert_eq!(AddrType::from(5), None);
    assert_eq!(AddrType::from(259), None);
}

#[test]
fn response_code_values() {
    let all = [
        ResponseCode::Success,
        ResponseCode::Failure,
        ResponseCode::RuleFailure,
        ResponseCode::NetworkUnreachable,
        ResponseCode::HostUnreachable,
        ResponseCode::ConnectionRefused,
        ResponseCode::TtlExpired,
        ResponseCode::CommandNotSupported,
        ResponseCode::AddrTypeNotSupported,
    ];
    for (i, r) in all.iter().enumerate() {
        assert_eq!(r.code() as usize, i);
    }
}

#[test]
fn success_reply_bytes() {
    let r = SocksReply::new(ResponseCode::Success);
    assert_eq!(r.to_bytes(), vec![5u8, 0, 0, 1, 0, 0, 0, 0, 0, 0]);
}

#[test]
fn failure_reply_bytes() {
    let r = SocksReply::new(ResponseCode::HostUnreachable);
    assert_eq!(r.to_bytes(), vec![5u8, 4, 0, 1, 0, 0, 0, 0, 0, 0]);
    let r = SocksReply::new(ResponseCode::AddrTypeNotSupported);
    assert_eq!(r.to_bytes(), vec![5u8, 8, 0, 1, 0, 0, 0, 0, 0, 0]);
}

#[test]
fn distinct_codes_give_distinct_replies() {
    let a = SocksReply::new(ResponseCode::Failure).to_bytes();
    let b = SocksReply::new(ResponseCode::RuleFailure).to_bytes();
    assert_ne!(a, b);
}

#[test]
fn protocol_constants() {
    assert_eq!(SOCKS_VERSION, 5);
    assert_eq!(RESERVED, 0);
}
