use localproxy::{
    Action, ConnectTimeout, Event, FailureKind, Phase, SOCKClient, SessionError, TargetAddr,
};

const SUCCESS: [u8; 10] = [5, 0, 0, 1, 0, 0, 0, 0, 0, 0];

fn default_timeout() -> ConnectTimeout {
    ConnectTimeout { secs: 0, nanos: 500_000_000 }
}

/// Start a session, feed it the events in turn, and collect every action.
fn drive(timeout: Option<ConnectTimeout>, events: Vec<Event>) -> (SOCKClient, Vec<Action>) {
    let mut client = SOCKClient::new(timeout);
    let mut actions = vec![client.init()];
    for e in events {
        assert!(client.accepts(&e), "event {:?} not accepted in {:?}", e, client.phase());
        actions.push(client.step(e));
    }
    (client, actions)
}

#[test]
fn new_client_starts_idle() {
    let c = SOCKClient::new(None);
    assert_eq!(c.phase(), Phase::Created);
    assert_eq!(c.socks_version(), 0);
    assert_eq!(c.auth_nmethods(), 0);
}

#[test]
fn connect_ipv4_full_session() {
    let (c, actions) = drive(
        None,
        vec![
            Event::Read(vec![5, 2]),
            Event::Read(vec![0, 2]),
            Event::Written,
            Event::Read(vec![5, 1, 0, 1]),
            Event::Read(vec![10, 0, 0, 7]),
            Event::Read(vec![0x01, 0xbb]),
            Event::Connected,
            Event::Written,
            Event::Relayed(1234),
        ],
    );
    assert_eq!(
        actions,
        vec![
            Action::ReadExact(2),
            Action::ReadExact(2),
            Action::Write(vec![5, 0]),
            Action::ReadExact(4),
            Action::ReadExact(4),
            Action::ReadExact(2),
            Action::Connect(
                vec![TargetAddr::V4 { octets: [10, 0, 0, 7], port: 443 }],
                default_timeout()
            ),
            Action::Write(SUCCESS.to_vec()),
            Action::Relay,
            Action::Finish(Ok(())),
        ]
    );
    assert_eq!(c.phase(), Phase::Done);
    assert_eq!(c.socks_version(), 5);
    assert_eq!(c.auth_nmethods(), 2);
    assert_eq!(c.relayed(), 1234);
    assert_eq!(c.request_addr(), &[10u8, 0, 0, 7][..]);
}

#[test]
fn connect_ipv6_with_timeout() {
    let t = ConnectTimeout { secs: 3, nanos: 0 };
    let mut addr = vec![0u8; 16];
    addr[15] = 1;
    let (_, actions) = drive(
        Some(t),
        vec![
            Event::Read(vec![5, 1]),
            Event::Read(vec![0]),
            Event::Written,
            Event::Read(vec![5, 1, 0, 4]),
            Event::Read(addr),
            Event::Read(vec![0, 22]),
        ],
    );
    assert_eq!(actions[4], Action::ReadExact(16));
    assert_eq!(
        actions[6],
        Action::Connect(
            vec![TargetAddr::V6 {
                segments: [0, 0, 0, 0, 0, 0, 0, 1],
                port: 22,
                flowinfo: 0,
                scope_id: 0
            }],
            t
        )
    );
}

#[test]
fn connect_domain_resolves_first() {
    let resolved = vec![
        TargetAddr::V4 { octets: [93, 184, 216, 34], port: 80 },
        TargetAddr::V6 { segments: [0x2606, 0x2800, 0x220, 1, 0x248, 0x1893, 0x25c8, 0x1946], port: 80, flowinfo: 0, scope_id: 0 },
    ];
    let (_, actions) = drive(
        None,
        vec![
            Event::Read(vec![5, 1]),
            Event::Read(vec![0]),
            Event::Written,
            Event::Read(vec![5, 1, 0, 3]),
            Event::Read(vec![11]),
            Event::Read(b"example.com".to_vec()),
            Event::Read(vec![0, 80]),
            Event::Resolved(resolved.clone()),
            Event::Connected,
        ],
    );
    assert_eq!(actions[4], Action::ReadExact(1));
    assert_eq!(actions[5], Action::ReadExact(11));
    assert_eq!(actions[6], Action::ReadExact(2));
    assert_eq!(actions[7], Action::Lookup(String::from("example.com:80")));
    assert_eq!(actions[8], Action::Connect(resolved, default_timeout()));
    assert_eq!(actions[9], Action::Write(SUCCESS.to_vec()));
}

#[test]
fn greeting_without_methods_is_answered_at_once() {
    let (_, actions) = drive(None, vec![Event::Read(vec![5, 0]), Event::Written]);
    assert_eq!(
        actions,
        vec![Action::ReadExact(2), Action::Write(vec![5, 0]), Action::ReadExact(4)]
    );
}

#[test]
fn other_version_is_shut_down() {
    let (c, actions) = drive(None, vec![Event::Read(vec![4, 1]), Event::ShutDown]);
    assert_eq!(
        actions,
        vec![Action::ReadExact(2), Action::Shutdown, Action::Finish(Ok(()))]
    );
    assert_eq!(c.socks_version(), 4);
    assert_eq!(c.phase(), Phase::Done);
}

#[test]
fn failed_shutdown_is_an_error() {
    let (_, actions) = drive(None, vec![Event::Read(vec![4, 1]), Event::Failed(FailureKind::Other)]);
    assert_eq!(actions[2], Action::Finish(Err(SessionError::Io)));
}

fn up_to_request() -> Vec<Event> {
    vec![Event::Read(vec![5, 1]), Event::Read(vec![0]), Event::Written]
}

#[test]
fn invalid_command_is_refused_after_shutdown() {
    let mut events = up_to_request();
    events.push(Event::Read(vec![5, 9, 0, 1]));
    events.push(Event::ShutDown);
    let (_, actions) = drive(None, events);
    assert_eq!(actions[4], Action::Shutdown);
    assert_eq!(actions[5], Action::Finish(Err(SessionError::InvalidCommand)));
}

#[test]
fn invalid_addr_type_is_refused_after_shutdown() {
    let mut events = up_to_request();
    events.push(Event::Read(vec![5, 1, 0, 2]));
    events.push(Event::ShutDown);
    let (_, actions) = drive(None, events);
    assert_eq!(actions[4], Action::Shutdown);
    assert_eq!(actions[5], Action::Finish(Err(SessionError::InvalidAddrType)));
}

#[test]
fn request_of_other_version_is_shut_down_then_read_on() {
    let mut events = up_to_request();
    events.push(Event::Read(vec![4, 1, 0, 1]));
    events.push(Event::ShutDown);
    events.push(Event::Read(vec![1, 2, 3, 4]));
    events.push(Event::Read(vec![0, 80]));
    let (_, actions) = drive(None, events);
    assert_eq!(actions[4], Action::Shutdown);
    assert_eq!(actions[5], Action::ReadExact(4));
    assert_eq!(
        actions[7],
        Action::Connect(vec![TargetAddr::V4 { octets: [1, 2, 3, 4], port: 80 }], default_timeout())
    );
}

#[test]
fn request_of_other_version_and_bad_command_shuts_down_twice() {
    let mut events = up_to_request();
    events.push(Event::Read(vec![4, 7, 0, 1]));
    events.push(Event::ShutDown);
    events.push(Event::ShutDown);
    let (_, actions) = drive(None, events);
    assert_eq!(actions[4], Action::Shutdown);
    assert_eq!(actions[5], Action::Shutdown);
    assert_eq!(actions[6], Action::Finish(Err(SessionError::InvalidCommand)));
}

#[test]
fn bind_is_not_supported() {
    let mut events = up_to_request();
    events.push(Event::Read(vec![5, 2, 0, 1]));
    events.push(Event::Read(vec![1, 2, 3, 4]));
    events.push(Event::Read(vec![0, 80]));
    let (c, actions) = drive(None, events);
    assert_eq!(actions[6], Action::Finish(Err(SessionError::BindNotSupported)));
    assert_eq!(c.phase(), Phase::Done);
    assert!(!c.accepts(&Event::Written));
}

#[test]
fn udp_associate_is_not_supported() {
    let mut events = up_to_request();
    events.push(Event::Read(vec![5, 3, 0, 3]));
    events.push(Event::Read(vec![1]));
    events.push(Event::Read(vec![b'x']));
    events.push(Event::Read(vec![0, 53]));
    let (_, actions) = drive(None, events);
    assert_eq!(actions[7], Action::Finish(Err(SessionError::UdpNotSupported)));
}

fn up_to_connect() -> Vec<Event> {
    let mut events = up_to_request();
    events.push(Event::Read(vec![5, 1, 0, 1]));
    events.push(Event::Read(vec![1, 2, 3, 4]));
    events.push(Event::Read(vec![0, 80]));
    events
}

#[test]
fn connect_timeout_is_reported() {
    let mut events = up_to_connect();
    events.push(Event::Failed(FailureKind::TimedOut));
    let (_, actions) = drive(None, events);
    assert_eq!(actions[7], Action::Finish(Err(SessionError::Timeout)));
}

#[test]
fn connect_failure_is_passed_on() {
    let mut events = up_to_connect();
    events.push(Event::Failed(FailureKind::Other));
    let (_, actions) = drive(None, events);
    assert_eq!(actions[7], Action::Finish(Err(SessionError::Io)));
}

#[test]
fn lookup_failure_is_passed_on() {
    let mut events = up_to_request();
    events.push(Event::Read(vec![5, 1, 0, 3]));
    events.push(Event::Read(vec![1]));
    events.push(Event::Read(vec![b'h']));
    events.push(Event::Read(vec![0, 80]));
    events.push(Event::Failed(FailureKind::Other));
    let (_, actions) = drive(None, events);
    assert_eq!(actions[7], Action::Lookup(String::from("h:80")));
    assert_eq!(actions[8], Action::Finish(Err(SessionError::Io)));
}

#[test]
fn relay_not_connected_is_fine() {
    let mut events = up_to_connect();
    events.push(Event::Connected);
    events.push(Event::Written);
    events.push(Event::Failed(FailureKind::NotConnected));
    let (c, actions) = drive(None, events);
    assert_eq!(actions[8], Action::Relay);
    assert_eq!(actions[9], Action::Finish(Ok(())));
    assert_eq!(c.relayed(), 0);
}

#[test]
fn relay_failure_is_wrapped() {
    let mut events = up_to_connect();
    events.push(Event::Connected);
    events.push(Event::Written);
    events.push(Event::Failed(FailureKind::Other));
    let (_, actions) = drive(None, events);
    assert_eq!(actions[9], Action::Finish(Err(SessionError::Relay)));
}

#[test]
fn eof_while_reading_request_is_an_error() {
    let mut events = up_to_request();
    events.push(Event::Failed(FailureKind::Other));
    let (_, actions) = drive(None, events);
    assert_eq!(actions[4], Action::Finish(Err(SessionError::Io)));
}

#[test]
fn events_out_of_turn_are_not_accepted() {
    let mut c = SOCKClient::new(None);
    assert!(!c.accepts(&Event::Read(vec![5, 1])));
    c.init();
    assert!(c.accepts(&Event::Read(vec![5, 1])));
    assert!(!c.accepts(&Event::Read(vec![5])));
    assert!(!c.accepts(&Event::Written));
    assert!(!c.accepts(&Event::Connected));
    assert!(c.accepts(&Event::Failed(FailureKind::Other)));
}

#[test]
fn error_messages() {
    assert_eq!(SessionError::Timeout.message(), Some("timeout"));
    assert_eq!(SessionError::InvalidCommand.message(), Some("Invalid command"));
    assert_eq!(SessionError::InvalidAddrType.message(), Some("Invalid address type"));
    assert_eq!(SessionError::BindNotSupported.message(), Some("Bind not supported"));
    assert_eq!(SessionError::UdpNotSupported.message(), Some("UDP not supported"));
    assert_eq!(SessionError::Io.message(), None);
    assert_eq!(SessionError::Relay.message(), None);
}

#[test]
fn request_addr_is_empty_before_the_address() {
    let (c, _) = drive(None, up_to_request());
    assert!(c.request_addr().is_empty());
}

#[test]
fn bind_request_is_kept_in_full() {
    let mut addr = vec![0u8; 16];
    addr[15] = 1;
    let mut events = up_to_request();
    events.push(Event::Read(vec![0x05, 0x02, 0x00, 0x04]));
    events.push(Event::Read(addr.clone()));
    events.push(Event::Read(vec![0x00, 0x50]));
    let (c, actions) = drive(None, events);
    assert_eq!(actions[6], Action::Finish(Err(SessionError::BindNotSupported)));
    let r = c.request().expect("the request was read");
    assert_eq!(r.version, 5);
    assert_eq!(r.command, localproxy::SockCommand::Bind);
    assert_eq!(r.addr_type, localproxy::AddrType::V6);
    assert_eq!(r.addr, addr);
    assert_eq!(r.port, 80);
}

#[test]
fn domain_request_is_kept() {
    let mut events = up_to_request();
    events.push(Event::Read(vec![5, 3, 7, 3]));
    events.push(Event::Read(vec![3]));
    events.push(Event::Read(b"abc".to_vec()));
    events.push(Event::Read(vec![0x12, 0x34]));
    let (c, _) = drive(None, events);
    let r = c.request().expect("the request was read");
    assert_eq!(r.command, localproxy::SockCommand::UdpAssosiate);
    assert_eq!(r.addr_type, localproxy::AddrType::Domain);
    assert_eq!(r.addr, b"abc".to_vec());
    assert_eq!(r.port, 0x1234);
}

#[test]
fn no_request_before_it_is_read() {
    let (c, _) = drive(None, up_to_request());
    assert!(c.request().is_none());
}

#[test]
fn init_restarts_the_greeting() {
    let (mut c, _) = drive(None, up_to_request());
    assert_eq!(c.init(), Action::ReadExact(2));
    assert_eq!(c.phase(), Phase::Greeting);
}
