use vstd::prelude::*;

use crate::address::{
    be_u16, decimal, destination, digit_char, host_with_port, utf8_lossy, v6_segments,
    DestinationView, TargetAddrView,
};
use crate::codes::{
    addr_type_code, addr_type_of, command_code, command_of, reply_bytes, response_code,
    AddrType, ResponseCode, SockCommand,
};
use crate::session::{
    accepted, accepts_all, check_request, connect_timeout, enter, fresh, method_selection, run,
    transition, well_formed, ActionView, ConnectTimeout, RequestView, EventView, FailureKind, Phase,
    SessionError, SessionState,
};

verus! {

/// Command codes and commands correspond one to one: `SockCommand::from` gives
/// back the command of each code, and a code it accepts is that command's code.
pub proof fn law_command_codes(c: SockCommand, n: int)
    ensures
        command_of(command_code(c) as int) == Some(c),
        command_of(n) matches Some(d) ==> command_code(d) == n,
        command_of(n) is Some <==> (n == 1 || n == 2 || n == 3),
{
}

/// Address type codes and address types correspond one to one.
pub proof fn law_addr_type_codes(t: AddrType, n: int)
    ensures
        addr_type_of(addr_type_code(t) as int) == Some(t),
        addr_type_of(n) matches Some(u) ==> addr_type_code(u) == n,
        addr_type_of(n) is Some <==> (n == 1 || n == 3 || n == 4),
{
}

/// Distinct response codes have distinct wire values, hence distinct replies.
pub proof fn law_response_codes_distinct(a: ResponseCode, b: ResponseCode)
    ensures
        response_code(a) == response_code(b) ==> a == b,
        reply_bytes(response_code(a)) == reply_bytes(response_code(b)) ==> a == b,
{
    if reply_bytes(response_code(a)) == reply_bytes(response_code(b)) {
        assert(reply_bytes(response_code(a))[1] == response_code(a));
        assert(reply_bytes(response_code(b))[1] == response_code(b));
    }
}

/// Every step that a session takes keeps its state well formed.
pub proof fn law_steps_keep_well_formed(s: SessionState, e: EventView)
    requires
        well_formed(s),
        accepted(s, e),
    ensures
        well_formed(transition(s, e).0),
{
}

/// A session writes only two things to its client: the method selection, while
/// it negotiates, and the success reply, only right after the connection to
/// the target succeeded.
pub proof fn law_writes(s: SessionState, e: EventView)
    requires
        accepted(s, e),
    ensures
        transition(s, e).1 matches ActionView::Write(b) ==> {
            ||| (b == method_selection() && (s.phase == Phase::Greeting || s.phase == Phase::Methods))
            ||| (b == reply_bytes(response_code(ResponseCode::Success)) && s.phase
                == Phase::Connecting && e == EventView::Connected)
        },
{
}

/// A session that has finished takes no more events, and a session finishes
/// exactly when it says so.
pub proof fn law_finish_is_final(s: SessionState, e: EventView, next: EventView)
    requires
        accepted(s, e),
    ensures
        (transition(s, e).1 is Finish) <==> (transition(s, e).0.phase == Phase::Done),
        transition(s, e).1 is Finish ==> !accepted(transition(s, e).0, next),
{
}

/// A request header with a version other than 5 only adds a shutdown: once it
/// is done, the request is checked as if the version had been 5.
pub proof fn law_request_version_mismatch(s: SessionState, ver: u8, cmd: u8, rsv: u8, atyp: u8)
    requires
        s.phase == Phase::RequestHeader,
        ver != 5,
    ensures
        ({
            let (s1, a1) = transition(s, EventView::Read(seq![ver, cmd, rsv, atyp]));
            let (s2, a2) = transition(s1, EventView::ShutDown);
            &&& a1 == ActionView::Shutdown
            &&& accepted(s1, EventView::ShutDown)
            &&& a2 == check_request(
                SessionState { request_version: ver, ..s },
                cmd,
                atyp,
            ).1
        }),
{
}

/// A client whose greeting names another protocol version is shut down, and the
/// session ends without error and without anything written.
pub proof fn law_other_version_closed(timeout: Option<ConnectTimeout>, ver: u8, nmethods: u8)
    requires
        ver != 5,
    ensures
        ({
            let s0 = enter(fresh(timeout), Phase::Greeting);
            let events = seq![EventView::Read(seq![ver, nmethods]), EventView::ShutDown];
            &&& accepts_all(s0, events)
            &&& run(s0, events).1 == seq![ActionView::Shutdown, ActionView::Finish(Ok(()))]
        }),
{
    let s0 = enter(fresh(timeout), Phase::Greeting);
    let events = seq![EventView::Read(seq![ver, nmethods]), EventView::ShutDown];
    let actions = seq![ActionView::Shutdown, ActionView::Finish(Ok(()))];
    let s1 = transition(s0, events[0]).0;
    let s2 = transition(s1, events[1]).0;
    let states = seq![s0, s1, s2];
    assert forall|i: int| 0 <= i < events.len() implies transition(states[i], events[i]) == (
        states[i + 1],
        actions[i],
    ) && accepted(states[i], events[i]) by {}
    lemma_run_list(states, events, actions);
}

/// Taking a list of events one by one: its actions are the actions of each
/// step in turn, and it is accepted when every step is.
proof fn lemma_run_list(states: Seq<SessionState>, events: Seq<EventView>, actions: Seq<ActionView>)
    requires
        states.len() == events.len() + 1,
        actions.len() == events.len(),
        forall|i: int|
            0 <= i < events.len() ==> transition(states[i], events[i]) == (
                states[i + 1],
                actions[i],
            ),
        forall|i: int| 0 <= i < events.len() ==> accepted(states[i], events[i]),
    ensures
        run(states[0], events) == (states.last(), actions),
        accepts_all(states[0], events),
    decreases events.len(),
{
    if events.len() == 0 {
        assert(actions =~= Seq::<ActionView>::empty());
    } else {
        let rest_states = states.drop_first();
        let rest_events = events.drop_first();
        let rest_actions = actions.drop_first();
        assert forall|i: int| 0 <= i < rest_events.len() implies transition(
            rest_states[i],
            rest_events[i],
        ) == (rest_states[i + 1], rest_actions[i]) && accepted(rest_states[i], rest_events[i]) by {
            assert(rest_states[i] == states[i + 1]);
            assert(rest_events[i] == events[i + 1]);
            assert(rest_states[i + 1] == states[i + 2]);
            assert(rest_actions[i] == actions[i + 1]);
        }
        lemma_run_list(rest_states, rest_events, rest_actions);
        assert(transition(states[0], events[0]) == (states[1], actions[0]));
        assert(seq![actions[0]] + rest_actions =~= actions);
        assert(rest_states.last() == states.last());
    }
}

/// The address that a CONNECT request to an IPv4 or IPv6 address leads to.
pub open spec fn ip_target(atyp: AddrType, ip: Seq<u8>, port: u16) -> TargetAddrView {
    if atyp == AddrType::V4 {
        TargetAddrView::V4 { octets: ip, port }
    } else {
        TargetAddrView::V6 { segments: v6_segments(ip), port, flowinfo: 0, scope_id: 0 }
    }
}

/// The greeting, with `nmethods` methods, and the method selection written.
pub open spec fn greeting_events(nmethods: u8, methods: Seq<u8>) -> Seq<EventView> {
    seq![EventView::Read(seq![5u8, nmethods]), EventView::Read(methods), EventView::Written]
}

/// The actions that answer `greeting_events`, then the read of a request header.
pub open spec fn greeting_actions(nmethods: u8) -> Seq<ActionView> {
    seq![
        ActionView::ReadExact(nmethods as nat),
        ActionView::Write(method_selection()),
        ActionView::ReadExact(4),
    ]
}

/// A connection that succeeds, the success reply written, and a relay that
/// copied `relayed` bytes from the target to the client.
pub open spec fn served_events(relayed: u64) -> Seq<EventView> {
    seq![EventView::Connected, EventView::Written, EventView::Relayed(relayed)]
}

/// The actions that answer `served_events`.
pub open spec fn served_actions() -> Seq<ActionView> {
    seq![
        ActionView::Write(reply_bytes(response_code(ResponseCode::Success))),
        ActionView::Relay,
        ActionView::Finish(Ok(())),
    ]
}

/// A whole session that CONNECTs to an IPv4 or IPv6 address.
pub open spec fn ip_connect_events(
    nmethods: u8,
    methods: Seq<u8>,
    rsv: u8,
    atyp: AddrType,
    ip: Seq<u8>,
    hi: u8,
    lo: u8,
    relayed: u64,
) -> Seq<EventView> {
    greeting_events(nmethods, methods) + seq![
        EventView::Read(seq![5u8, 1u8, rsv, addr_type_code(atyp)]),
        EventView::Read(ip),
        EventView::Read(seq![hi, lo]),
    ] + served_events(relayed)
}

/// The actions of the session of `ip_connect_events`.
pub open spec fn ip_connect_actions(
    timeout: Option<ConnectTimeout>,
    nmethods: u8,
    atyp: AddrType,
    ip: Seq<u8>,
    hi: u8,
    lo: u8,
) -> Seq<ActionView> {
    greeting_actions(nmethods) + seq![
        ActionView::ReadExact(ip.len()),
        ActionView::ReadExact(2),
        ActionView::Connect(seq![ip_target(atyp, ip, be_u16(hi, lo))], connect_timeout(timeout)),
    ] + served_actions()
}

/// A whole session that CONNECTs to a domain name.
pub open spec fn domain_connect_events(
    nmethods: u8,
    methods: Seq<u8>,
    rsv: u8,
    name: Seq<u8>,
    hi: u8,
    lo: u8,
    resolved: Seq<TargetAddrView>,
    relayed: u64,
) -> Seq<EventView> {
    greeting_events(nmethods, methods) + seq![
        EventView::Read(seq![5u8, 1u8, rsv, 3u8]),
        EventView::Read(seq![name.len() as u8]),
        EventView::Read(name),
        EventView::Read(seq![hi, lo]),
        EventView::Resolved(resolved),
    ] + served_events(relayed)
}

/// The actions of the session of `domain_connect_events`.
pub open spec fn domain_connect_actions(
    timeout: Option<ConnectTimeout>,
    nmethods: u8,
    name: Seq<u8>,
    hi: u8,
    lo: u8,
    resolved: Seq<TargetAddrView>,
) -> Seq<ActionView> {
    greeting_actions(nmethods) + seq![
        ActionView::ReadExact(1),
        ActionView::ReadExact(name.len()),
        ActionView::ReadExact(2),
        ActionView::Lookup(host_with_port(name, be_u16(hi, lo))),
        ActionView::Connect(resolved, connect_timeout(timeout)),
    ] + served_actions()
}

/// A client that greets with version 5 and offers methods, then asks to CONNECT
/// to an IPv4 or IPv6 address, is answered with the method selection; the
/// server connects to that address and port with the client's timeout (500 ms
/// when it has none), then sends the success reply and relays data; the
/// session ends without error and keeps the count of bytes relayed from the
/// target to the client.
pub proof fn law_connect_to_ip(
    timeout: Option<ConnectTimeout>,
    nmethods: u8,
    methods: Seq<u8>,
    rsv: u8,
    atyp: AddrType,
    ip: Seq<u8>,
    hi: u8,
    lo: u8,
    relayed: u64,
)
    requires
        nmethods > 0,
        methods.len() == nmethods,
        atyp == AddrType::V4 ==> ip.len() == 4,
        atyp == AddrType::V6 ==> ip.len() == 16,
        atyp != AddrType::Domain,
    ensures
        ({
            let s0 = enter(fresh(timeout), Phase::Greeting);
            let events = ip_connect_events(nmethods, methods, rsv, atyp, ip, hi, lo, relayed);
            &&& accepts_all(s0, events)
            &&& run(s0, events).1 == ip_connect_actions(timeout, nmethods, atyp, ip, hi, lo)
            &&& run(s0, events).0.phase == Phase::Done
            &&& run(s0, events).0.relayed == relayed
        }),
{
    let s0 = enter(fresh(timeout), Phase::Greeting);
    let events = ip_connect_events(nmethods, methods, rsv, atyp, ip, hi, lo, relayed);
    let actions = ip_connect_actions(timeout, nmethods, atyp, ip, hi, lo);
    assert(events =~= seq![
        EventView::Read(seq![5u8, nmethods]),
        EventView::Read(methods),
        EventView::Written,
        EventView::Read(seq![5u8, 1u8, rsv, addr_type_code(atyp)]),
        EventView::Read(ip),
        EventView::Read(seq![hi, lo]),
        EventView::Connected,
        EventView::Written,
        EventView::Relayed(relayed),
    ]);
    assert(actions =~= seq![
        ActionView::ReadExact(nmethods as nat),
        ActionView::Write(method_selection()),
        ActionView::ReadExact(4),
        ActionView::ReadExact(ip.len()),
        ActionView::ReadExact(2),
        ActionView::Connect(seq![ip_target(atyp, ip, be_u16(hi, lo))], connect_timeout(timeout)),
        ActionView::Write(reply_bytes(response_code(ResponseCode::Success))),
        ActionView::Relay,
        ActionView::Finish(Ok(())),
    ]);
    let s1 = transition(s0, events[0]).0;
    let s2 = transition(s1, events[1]).0;
    let s3 = transition(s2, events[2]).0;
    let s4 = transition(s3, events[3]).0;
    let s5 = transition(s4, events[4]).0;
    let s6 = transition(s5, events[5]).0;
    let s7 = transition(s6, events[6]).0;
    let s8 = transition(s7, events[7]).0;
    let s9 = transition(s8, events[8]).0;
    let states = seq![s0, s1, s2, s3, s4, s5, s6, s7, s8, s9];
    assert(s4.phase == Phase::Address {
        command: SockCommand::Connect,
        addr_type: atyp,
        length: ip.len() as u8,
    });
    assert(s5.addr == ip);
    if atyp == AddrType::V4 {
        assert(ip.subrange(0, 4) =~= ip);
    }
    assert forall|i: int| 0 <= i < events.len() implies transition(states[i], events[i]) == (
        states[i + 1],
        actions[i],
    ) && accepted(states[i], events[i]) by {}
    lemma_run_list(states, events, actions);
}

/// A client that asks to CONNECT to a domain name has the name, decoded as
/// UTF-8 and followed by a colon and the port in decimal, resolved; the server
/// connects to the resolved addresses with the client's timeout, then sends the
/// success reply and relays data; the session ends without error and keeps the
/// count of bytes relayed from the target to the client.
pub proof fn law_connect_to_domain(
    timeout: Option<ConnectTimeout>,
    nmethods: u8,
    methods: Seq<u8>,
    rsv: u8,
    name: Seq<u8>,
    hi: u8,
    lo: u8,
    resolved: Seq<TargetAddrView>,
    relayed: u64,
)
    requires
        nmethods > 0,
        methods.len() == nmethods,
        name.len() < 256,
    ensures
        ({
            let s0 = enter(fresh(timeout), Phase::Greeting);
            let events = domain_connect_events(nmethods, methods, rsv, name, hi, lo, resolved, relayed);
            &&& accepts_all(s0, events)
            &&& run(s0, events).1 == domain_connect_actions(timeout, nmethods, name, hi, lo, resolved)
            &&& run(s0, events).0.phase == Phase::Done
            &&& run(s0, events).0.relayed == relayed
        }),
{
    let s0 = enter(fresh(timeout), Phase::Greeting);
    let events = domain_connect_events(nmethods, methods, rsv, name, hi, lo, resolved, relayed);
    let actions = domain_connect_actions(timeout, nmethods, name, hi, lo, resolved);
    assert(events =~= seq![
        EventView::Read(seq![5u8, nmethods]),
        EventView::Read(methods),
        EventView::Written,
        EventView::Read(seq![5u8, 1u8, rsv, 3u8]),
        EventView::Read(seq![name.len() as u8]),
        EventView::Read(name),
        EventView::Read(seq![hi, lo]),
        EventView::Resolved(resolved),
        EventView::Connected,
        EventView::Written,
        EventView::Relayed(relayed),
    ]);
    assert(actions =~= seq![
        ActionView::ReadExact(nmethods as nat),
        ActionView::Write(method_selection()),
        ActionView::ReadExact(4),
        ActionView::ReadExact(1),
        ActionView::ReadExact(name.len()),
        ActionView::ReadExact(2),
        ActionView::Lookup(host_with_port(name, be_u16(hi, lo))),
        ActionView::Connect(resolved, connect_timeout(timeout)),
        ActionView::Write(reply_bytes(response_code(ResponseCode::Success))),
        ActionView::Relay,
        ActionView::Finish(Ok(())),
    ]);
    let s1 = transition(s0, events[0]).0;
    let s2 = transition(s1, events[1]).0;
    let s3 = transition(s2, events[2]).0;
    let s4 = transition(s3, events[3]).0;
    let s5 = transition(s4, events[4]).0;
    let s6 = transition(s5, events[5]).0;
    let s7 = transition(s6, events[6]).0;
    let s8 = transition(s7, events[7]).0;
    let s9 = transition(s8, events[8]).0;
    let s10 = transition(s9, events[9]).0;
    let s11 = transition(s10, events[10]).0;
    let states = seq![s0, s1, s2, s3, s4, s5, s6, s7, s8, s9, s10, s11];
    assert(s6.addr == name);
    assert forall|i: int| 0 <= i < events.len() implies transition(states[i], events[i]) == (
        states[i + 1],
        actions[i],
    ) && accepted(states[i], events[i]) by {}
    lemma_run_list(states, events, actions);
}

/// A complete request for BIND or UDP ASSOCIATE is refused: the session ends
/// with the matching error, with no reply written and no connection tried.
pub proof fn law_unsupported_commands(s: SessionState, addr_type: AddrType, hi: u8, lo: u8)
    requires
        s.phase == (Phase::Port { command: SockCommand::Bind, addr_type })
            || s.phase == (Phase::Port { command: SockCommand::UdpAssosiate, addr_type }),
    ensures
        transition(s, EventView::Read(seq![hi, lo])).1 == ActionView::Finish(
            Err(
                if s.phase == (Phase::Port { command: SockCommand::Bind, addr_type }) {
                    SessionError::BindNotSupported
                } else {
                    SessionError::UdpNotSupported
                },
            ),
        ),
        transition(s, EventView::Read(seq![hi, lo])).0.phase == Phase::Done,
{
}

/// A failure ends the session: a connection that timed out ends it with the
/// timeout error, a relay that finds the socket not connected ends it without
/// error, and any other failure ends it with an error.
pub proof fn law_failures(s: SessionState, k: FailureKind)
    requires
        accepted(s, EventView::Failed(k)),
    ensures
        transition(s, EventView::Failed(k)).0.phase == Phase::Done,
        transition(s, EventView::Failed(k)).1 is Finish,
        (s.phase == Phase::Connecting && k == FailureKind::TimedOut) ==> transition(
            s,
            EventView::Failed(k),
        ).1 == ActionView::Finish(Err(SessionError::Timeout)),
        (s.phase == Phase::Relaying && k == FailureKind::NotConnected) ==> transition(
            s,
            EventView::Failed(k),
        ).1 == ActionView::Finish(Ok(())),
        !(s.phase == Phase::Relaying && k == FailureKind::NotConnected) ==> transition(
            s,
            EventView::Failed(k),
        ).1 matches ActionView::Finish(Err(_)),
{
}

/// Whether event `e` reports on action `a`: its success, or its failure.
pub open spec fn answers(a: ActionView, e: EventView) -> bool {
    match e {
        EventView::Failed(_) => !(a is Finish),
        EventView::Read(b) => a matches ActionView::ReadExact(n) && b.len() == n,
        EventView::Written => a is Write,
        EventView::ShutDown => a is Shutdown,
        EventView::Resolved(_) => a is Lookup,
        EventView::Connected => a is Connect,
        EventView::Relayed(_) => a is Relay,
    }
}

/// A session always takes the report of the action it asked for: after
/// `init`, and after every step, each event that answers the action (its
/// success or any failure) is accepted.
pub proof fn law_actions_answerable(s: SessionState, e: EventView, next: EventView)
    ensures
        answers(ActionView::ReadExact(2), next) ==> accepted(enter(s, Phase::Greeting), next),
        accepted(s, e) && answers(transition(s, e).1, next) ==> accepted(
            transition(s, e).0,
            next,
        ),
{
}

/// The events that deliver a request (RFC 1928, section 4) for `command` to
/// address `addr` of type `atyp` and port `port`, field by field as the
/// session reads them: header, then (for a domain name) the length byte, the
/// address, and the port in network order.
pub open spec fn request_events(
    command: SockCommand,
    rsv: u8,
    atyp: AddrType,
    addr: Seq<u8>,
    port: u16,
) -> Seq<EventView> {
    seq![EventView::Read(seq![5u8, command_code(command), rsv, addr_type_code(atyp)])] + (if atyp
        == AddrType::Domain {
        seq![EventView::Read(seq![addr.len() as u8])]
    } else {
        seq![]
    }) + seq![
        EventView::Read(addr),
        EventView::Read(seq![(port / 256) as u8, (port % 256) as u8]),
    ]
}

/// Reading a request gives back what was encoded, for every command and
/// address type: the version, command, address type, address and port (the
/// reserved byte is ignored).
pub proof fn law_request_parsed(
    s: SessionState,
    command: SockCommand,
    rsv: u8,
    atyp: AddrType,
    addr: Seq<u8>,
    port: u16,
)
    requires
        s.phase == Phase::RequestHeader,
        atyp == AddrType::V4 ==> addr.len() == 4,
        atyp == AddrType::V6 ==> addr.len() == 16,
        atyp == AddrType::Domain ==> addr.len() < 256,
    ensures
        accepts_all(s, request_events(command, rsv, atyp, addr, port)),
        run(s, request_events(command, rsv, atyp, addr, port)).0.request == Some(
            RequestView { version: 5, command, addr_type: atyp, addr, port },
        ),
{
    let events = request_events(command, rsv, atyp, addr, port);
    let hi = (port / 256) as u8;
    let lo = (port % 256) as u8;
    assert(be_u16(hi, lo) == port);
    if atyp == AddrType::Domain {
        assert(events =~= seq![
            EventView::Read(seq![5u8, command_code(command), rsv, 3u8]),
            EventView::Read(seq![addr.len() as u8]),
            EventView::Read(addr),
            EventView::Read(seq![hi, lo]),
        ]);
        let (s1, a0) = transition(s, events[0]);
        let (s2, a1) = transition(s1, events[1]);
        let (s3, a2) = transition(s2, events[2]);
        let (s4, a3) = transition(s3, events[3]);
        let states = seq![s, s1, s2, s3, s4];
        let actions = seq![a0, a1, a2, a3];
        assert(s3.addr == addr);
        assert forall|i: int| 0 <= i < events.len() implies transition(states[i], events[i]) == (
            states[i + 1],
            actions[i],
        ) && accepted(states[i], events[i]) by {}
        lemma_run_list(states, events, actions);
    } else {
        assert(events =~= seq![
            EventView::Read(seq![5u8, command_code(command), rsv, addr_type_code(atyp)]),
            EventView::Read(addr),
            EventView::Read(seq![hi, lo]),
        ]);
        let (s1, a0) = transition(s, events[0]);
        let (s2, a1) = transition(s1, events[1]);
        let (s3, a2) = transition(s2, events[2]);
        let states = seq![s, s1, s2, s3];
        let actions = seq![a0, a1, a2];
        assert(s2.addr == addr);
        assert forall|i: int| 0 <= i < events.len() implies transition(states[i], events[i]) == (
            states[i + 1],
            actions[i],
        ) && accepted(states[i], events[i]) by {}
        lemma_run_list(states, events, actions);
    }
}

/// Two bytes in network order make the number `hi * 256 + lo`.
pub proof fn law_network_order(hi: u8, lo: u8)
    ensures
        be_u16(hi, lo) as int == hi as int * 256 + lo as int,
{
}

/// An IPv4 request leads to exactly one target: the four address bytes in
/// order, with the request's port.
pub proof fn law_ipv4_target(addr: Seq<u8>, port: u16)
    requires
        addr.len() >= 4,
    ensures
        match destination(AddrType::V4, addr, port) {
            DestinationView::Direct(v) => v.len() == 1 && match v[0] {
                TargetAddrView::V4 { octets, port: p } => p == port && octets.len() == 4 && forall|
                    i: int,
                | 0 <= i < 4 ==> octets[i] == addr[i],
                _ => false,
            },
            _ => false,
        },
{
}

/// An IPv6 request leads to exactly one target, with the request's port, flow
/// information and scope id 0, whose group `i` is bytes `2i` and `2i + 1` of
/// the address in network order.
pub proof fn law_ipv6_target(addr: Seq<u8>, port: u16)
    requires
        addr.len() >= 16,
    ensures
        match destination(AddrType::V6, addr, port) {
            DestinationView::Direct(v) => v.len() == 1 && match v[0] {
                TargetAddrView::V6 { segments, port: p, flowinfo, scope_id } => p == port
                    && flowinfo == 0 && scope_id == 0 && segments.len() == 8 && forall|i: int|
                    0 <= i < 8 ==> segments[i] as int == addr[2 * i] as int * 256 + addr[2 * i
                    + 1] as int,
                _ => false,
            },
            _ => false,
        },
{
    if let DestinationView::Direct(v) = destination(AddrType::V6, addr, port) {
        if let TargetAddrView::V6 { segments, .. } = v[0] {
            assert forall|i: int| 0 <= i < 8 implies segments[i] as int == addr[2 * i] as int * 256
                + addr[2 * i + 1] as int by {
                law_network_order(addr[2 * i], addr[2 * i + 1]);
            }
        }
    }
}

/// The number that a text of decimal digits reads as, most significant digit
/// first, each digit being its character code less that of '0'.
pub open spec fn decimal_value(text: Seq<char>) -> int
    decreases text.len(),
{
    if text.len() == 0 {
        0
    } else {
        decimal_value(text.drop_last()) * 10 + (text.last() as int - '0' as int)
    }
}

/// The decimal text of a number consists of the digits '0' to '9', starts with
/// '0' only for zero, and reads back as the number.
pub proof fn law_decimal_reads_back(n: nat)
    ensures
        decimal(n).len() > 0,
        forall|i: int| 0 <= i < decimal(n).len() ==> '0' <= #[trigger] decimal(n)[i] <= '9',
        decimal(n)[0] == '0' ==> n == 0,
        decimal_value(decimal(n)) == n,
    decreases n,
{
    if n >= 10 {
        law_decimal_reads_back(n / 10);
        let d = n % 10;
        let front = decimal(n / 10);
        assert(decimal(n) == front + seq![digit_char(d)]);
        assert((front + seq![digit_char(d)]).drop_last() =~= front);
        assert(digit_char(d) as int - '0' as int == d);
        assert(decimal_value(decimal(n)) == decimal_value(front) * 10 + d);
        assert(decimal(n)[0] == front[0]);
    } else {
        assert(digit_char(n) as int - '0' as int == n);
        assert(seq![digit_char(n)].drop_last() =~= Seq::<char>::empty());
        assert(decimal_value(Seq::<char>::empty()) == 0);
        assert(decimal_value(seq![digit_char(n)]) == n);
    }
}

/// The host string of a domain-name request is the decoded name, a colon, and
/// a decimal text that reads back as the port.
pub proof fn law_host_string(name: Seq<u8>, port: u16)
    ensures
        destination(AddrType::Domain, name, port) == DestinationView::Lookup(
            utf8_lossy(name) + seq![':'] + decimal(port as nat),
        ),
        decimal_value(decimal(port as nat)) == port,
{
    law_decimal_reads_back(port as nat);
}

/// A client given a timeout connects with exactly that timeout, seconds and
/// nanoseconds; a client given none waits 500 milliseconds.
pub proof fn law_timeout(t: ConnectTimeout)
    ensures
        connect_timeout(Some(t)) == t,
        connect_timeout(None) == (ConnectTimeout { secs: 0, nanos: 500_000_000 }),
{
}

/// Every reply is ten bytes: version 5, the reply code, reserved 0, address
/// type IPv4 (1) and the address 0.0.0.0 with port 0; replies for two codes
/// differ at most in the reply code.
pub proof fn law_reply_layout(r: ResponseCode, q: ResponseCode)
    ensures
        reply_bytes(response_code(r)) == seq![
            5u8,
            response_code(r),
            0u8,
            1u8,
            0u8,
            0u8,
            0u8,
            0u8,
            0u8,
            0u8,
        ],
        forall|i: int|
            0 <= i < 10 && i != 1 ==> reply_bytes(response_code(r))[i] == reply_bytes(
                response_code(q),
            )[i],
{
    assert(reply_bytes(response_code(r)) =~= seq![
        5u8,
        response_code(r),
        0u8,
        1u8,
        0u8,
        0u8,
        0u8,
        0u8,
        0u8,
        0u8,
    ]);
}

/// The wire values of RFC 1928: CONNECT 1, BIND 2, UDP ASSOCIATE 3; IPv4 1,
/// domain name 3, IPv6 4; reply codes 0 (succeeded) to 8 (address type not
/// supported) in the order of the RFC; and the method selection is version 5
/// with method 0 (no authentication required).
pub proof fn law_wire_values()
    ensures
        command_code(SockCommand::Connect) == 1,
        command_code(SockCommand::Bind) == 2,
        command_code(SockCommand::UdpAssosiate) == 3,
        addr_type_code(AddrType::V4) == 1,
        addr_type_code(AddrType::Domain) == 3,
        addr_type_code(AddrType::V6) == 4,
        response_code(ResponseCode::Success) == 0,
        response_code(ResponseCode::Failure) == 1,
        response_code(ResponseCode::RuleFailure) == 2,
        response_code(ResponseCode::NetworkUnreachable) == 3,
        response_code(ResponseCode::HostUnreachable) == 4,
        response_code(ResponseCode::ConnectionRefused) == 5,
        response_code(ResponseCode::TtlExpired) == 6,
        response_code(ResponseCode::CommandNotSupported) == 7,
        response_code(ResponseCode::AddrTypeNotSupported) == 8,
        method_selection() == seq![5u8, 0u8],
{
    assert(method_selection() =~= seq![5u8, 0u8]);
}

} // verus!
