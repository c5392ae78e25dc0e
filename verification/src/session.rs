use vstd::prelude::*;

use crate::address::{
    addr_to_socket, address_fits, be_u16, destination, merge_u16, targets_view, Destination,
    DestinationView, TargetAddr, TargetAddrView,
};
use crate::codes::{
    addr_type_of, command_of, reply_bytes, response_code, AddrType, ResponseCode, SockCommand,
    SocksReply, SOCKS_VERSION,
};

verus! {

/// How long to wait for the connection to a request's target, as seconds and
/// the nanoseconds below a second.
#[derive(Debug, Clone, Copy, PartialEq, Eq, Structural)]
pub struct ConnectTimeout {
    /// Whole seconds.
    pub secs: u64,
    /// Nanoseconds below a second (less than 1_000_000_000).
    pub nanos: u32,
}

/// The wait used when a client was made without a timeout: 500 milliseconds.
pub open spec fn default_connect_timeout() -> ConnectTimeout {
    ConnectTimeout { secs: 0, nanos: 500_000_000 }
}

/// The wait that applies to a connection, given the client's optional timeout.
pub open spec fn connect_timeout(t: Option<ConnectTimeout>) -> ConnectTimeout {
    match t {
        Some(t) => t,
        None => default_connect_timeout(),
    }
}

/// How an operation that the session asked for failed.
#[derive(Debug, Clone, Copy, PartialEq, Eq, Structural)]
pub enum FailureKind {
    /// The connection to the target did not complete within the timeout.
    TimedOut,
    /// The operation reported that the socket is not connected.
    NotConnected,
    /// Any other I/O error.
    Other,
}

/// Why a session ended in error.
#[derive(Debug, Clone, Copy, PartialEq, Eq, Structural)]
pub enum SessionError {
    /// The I/O error of the operation that failed, passed on as it came.
    Io,
    /// The target could not be reached within the timeout ("timeout").
    Timeout,
    /// The request named no known command ("Invalid command").
    InvalidCommand,
    /// The request named no known address type ("Invalid address type").
    InvalidAddrType,
    /// The request asked for BIND ("Bind not supported").
    BindNotSupported,
    /// The request asked for UDP ASSOCIATE ("UDP not supported").
    UdpNotSupported,
    /// Relaying data between client and target failed; the error is passed
    /// on wrapped as an error of kind `Other`.
    Relay,
}

/// The message of an error that the session makes itself; `None` for the
/// errors that pass on (or wrap) the error of a failed operation.
pub open spec fn error_message(e: SessionError) -> Option<Seq<char>> {
    match e {
        SessionError::Io => None,
        SessionError::Relay => None,
        SessionError::Timeout => Some("timeout"@),
        SessionError::InvalidCommand => Some("Invalid command"@),
        SessionError::InvalidAddrType => Some("Invalid address type"@),
        SessionError::BindNotSupported => Some("Bind not supported"@),
        SessionError::UdpNotSupported => Some("UDP not supported"@),
    }
}

impl SessionError {
    /// The message of an error that the session makes itself (each of them an
    /// error of kind "invalid input"); `None` for `Io` and `Relay`.
    pub fn message(&self) -> (m: Option<&'static str>)
        ensures
            m matches Some(t) ==> error_message(*self) == Some(t@),
            m is None <==> error_message(*self) is None,
    {
        match self {
            SessionError::Io => None,
            SessionError::Relay => None,
            SessionError::Timeout => Some("timeout"),
            SessionError::InvalidCommand => Some("Invalid command"),
            SessionError::InvalidAddrType => Some("Invalid address type"),
            SessionError::BindNotSupported => Some("Bind not supported"),
            SessionError::UdpNotSupported => Some("UDP not supported"),
        }
    }
}

/// What the caller of the session reports back after carrying out an action.
#[derive(Debug, PartialEq, Eq)]
pub enum Event {
    /// A `ReadExact` completed with these bytes.
    Read(Vec<u8>),
    /// A `Write` completed.
    Written,
    /// A `Shutdown` completed.
    ShutDown,
    /// A `Lookup` completed with these addresses.
    Resolved(Vec<TargetAddr>),
    /// A `Connect` completed.
    Connected,
    /// A `Relay` completed, after copying this many bytes from the target to
    /// the client.
    Relayed(u64),
    /// The pending action failed.
    Failed(FailureKind),
}

/// The mathematical form of an [`Event`].
pub enum EventView {
    Read(Seq<u8>),
    Written,
    ShutDown,
    Resolved(Seq<TargetAddrView>),
    Connected,
    Relayed(u64),
    Failed(FailureKind),
}

impl View for Event {
    type V = EventView;

    open spec fn view(&self) -> EventView {
        match self {
            Event::Read(b) => EventView::Read(b@),
            Event::Written => EventView::Written,
            Event::ShutDown => EventView::ShutDown,
            Event::Resolved(v) => EventView::Resolved(targets_view(v@)),
            Event::Connected => EventView::Connected,
            Event::Relayed(n) => EventView::Relayed(*n),
            Event::Failed(k) => EventView::Failed(*k),
        }
    }
}

/// What the session asks its caller to do next.
#[derive(Debug, PartialEq, Eq)]
pub enum Action {
    /// Read exactly this many bytes from the client.
    ReadExact(usize),
    /// Write all of these bytes to the client.
    Write(Vec<u8>),
    /// Shut down the client stream.
    Shutdown,
    /// Resolve this `host:port` string into socket addresses.
    Lookup(String),
    /// Connect to the first of these addresses that accepts, within the timeout.
    Connect(Vec<TargetAddr>, ConnectTimeout),
    /// Copy data both ways between client and target until both sides close.
    Relay,
    /// The session is over, with this result.
    Finish(Result<(), SessionError>),
}

/// The mathematical form of an [`Action`].
pub enum ActionView {
    ReadExact(nat),
    Write(Seq<u8>),
    Shutdown,
    Lookup(Seq<char>),
    Connect(Seq<TargetAddrView>, ConnectTimeout),
    Relay,
    Finish(Result<(), SessionError>),
}

impl View for Action {
    type V = ActionView;

    open spec fn view(&self) -> ActionView {
        match self {
            Action::ReadExact(n) => ActionView::ReadExact(*n as nat),
            Action::Write(b) => ActionView::Write(b@),
            Action::Shutdown => ActionView::Shutdown,
            Action::Lookup(s) => ActionView::Lookup(s@),
            Action::Connect(v, t) => ActionView::Connect(targets_view(v@), *t),
            Action::Relay => ActionView::Relay,
            Action::Finish(r) => ActionView::Finish(*r),
        }
    }
}

/// Where a session stands: which operation it waits on, with what it has
/// learnt of the request so far.
#[derive(Debug, Clone, Copy, PartialEq, Eq, Structural)]
pub enum Phase {
    /// Made, not started.
    Created,
    /// Waiting for the two-byte greeting (VER, NMETHODS).
    Greeting,
    /// Waiting for the NMETHODS method bytes.
    Methods,
    /// Waiting for the method selection (no authentication) to be written.
    MethodReply,
    /// Waiting for the shutdown after a greeting of another version.
    Closing,
    /// Waiting for the four-byte request header (VER, CMD, RSV, ATYP).
    RequestHeader,
    /// Waiting for the shutdown after a request header of another version.
    VersionMismatch { command_byte: u8, addr_type_byte: u8 },
    /// Waiting for the shutdown before ending with `error`.
    Rejecting { error: SessionError },
    /// Waiting for the length byte of a domain name.
    DomainLength { command: SockCommand },
    /// Waiting for `length` address bytes.
    Address { command: SockCommand, addr_type: AddrType, length: u8 },
    /// Waiting for the two port bytes.
    Port { command: SockCommand, addr_type: AddrType },
    /// Waiting for name resolution.
    Resolving,
    /// Waiting for the connection to the target.
    Connecting,
    /// Waiting for the success reply to be written.
    Replying,
    /// Waiting for the relay to end.
    Relaying,
    /// The session has finished.
    Done,
}

/// The mathematical form of a [`SOCKClient`].
pub struct SessionState {
    pub auth_nmethods: u8,
    pub socks_version: u8,
    pub request_version: u8,
    pub timeout: Option<ConnectTimeout>,
    pub phase: Phase,
    pub addr: Seq<u8>,
    pub relayed: u64,
    pub request: Option<RequestView>,
}

/// A SOCKS5 request (RFC 1928, section 4):
///
///    +----+-----+-------+------+----------+----------+
///    |VER | CMD |  RSV  | ATYP | DST.ADDR | DST.PORT |
///    +----+-----+-------+------+----------+----------+
///    | 1  |  1  | X'00' |  1   | Variable |    2     |
///    +----+-----+-------+------+----------+----------+
#[derive(Debug)]
pub struct SOCKSReq {
    pub version: u8,
    pub command: SockCommand,
    pub addr_type: AddrType,
    pub addr: Vec<u8>,
    pub port: u16,
}

/// The mathematical form of a [`SOCKSReq`].
pub struct RequestView {
    pub version: u8,
    pub command: SockCommand,
    pub addr_type: AddrType,
    pub addr: Seq<u8>,
    pub port: u16,
}

impl View for SOCKSReq {
    type V = RequestView;

    open spec fn view(&self) -> RequestView {
        RequestView {
            version: self.version,
            command: self.command,
            addr_type: self.addr_type,
            addr: self.addr@,
            port: self.port,
        }
    }
}

/// The server side of one SOCKS5 session (no authentication, CONNECT only).
///
/// The session does no I/O itself: each call returns the [`Action`] to carry
/// out, and the outcome is handed back as an [`Event`].
#[derive(Debug)]
pub struct SOCKClient {
    auth_nmethods: u8,
    socks_version: u8,
    request_version: u8,
    timeout: Option<ConnectTimeout>,
    phase: Phase,
    addr: Vec<u8>,
    relayed: u64,
    request: Option<SOCKSReq>,
}

impl View for SOCKClient {
    type V = SessionState;

    closed spec fn view(&self) -> SessionState {
        SessionState {
            auth_nmethods: self.auth_nmethods,
            socks_version: self.socks_version,
            request_version: self.request_version,
            timeout: self.timeout,
            phase: self.phase,
            addr: self.addr@,
            relayed: self.relayed,
            request: match &self.request {
                Some(r) => Some(r@),
                None => None,
            },
        }
    }
}

/// A session that has not started, with the given timeout.
pub open spec fn fresh(timeout: Option<ConnectTimeout>) -> SessionState {
    SessionState {
        auth_nmethods: 0,
        socks_version: 0,
        request_version: 0,
        timeout,
        phase: Phase::Created,
        addr: Seq::empty(),
        relayed: 0,
        request: None,
    }
}

/// `s` with its phase set to `p`.
pub open spec fn enter(s: SessionState, p: Phase) -> SessionState {
    SessionState { phase: p, ..s }
}

/// End the session with result `r`.
pub open spec fn finish(s: SessionState, r: Result<(), SessionError>) -> (SessionState, ActionView) {
    (enter(s, Phase::Done), ActionView::Finish(r))
}

/// The result of a session whose pending operation in phase `p` failed.
pub open spec fn failure_result(p: Phase, k: FailureKind) -> Result<(), SessionError> {
    match p {
        Phase::Connecting => if k == FailureKind::TimedOut {
            Err(SessionError::Timeout)
        } else {
            Err(SessionError::Io)
        },
        Phase::Relaying => if k == FailureKind::NotConnected {
            Ok(())
        } else {
            Err(SessionError::Relay)
        },
        _ => Err(SessionError::Io),
    }
}

/// The method selection message: version 5, no authentication required.
pub open spec fn method_selection() -> Seq<u8> {
    seq![SOCKS_VERSION, 0u8]
}

/// The greeting `(ver, nmethods)` has been read.
pub open spec fn after_greeting(s: SessionState, ver: u8, nmethods: u8) -> (SessionState, ActionView) {
    let s1 = SessionState { socks_version: ver, auth_nmethods: nmethods, ..s };
    if ver == SOCKS_VERSION {
        if nmethods == 0 {
            (enter(s1, Phase::MethodReply), ActionView::Write(method_selection()))
        } else {
            (enter(s1, Phase::Methods), ActionView::ReadExact(nmethods as nat))
        }
    } else {
        (enter(s1, Phase::Closing), ActionView::Shutdown)
    }
}

/// The command and address type bytes of a request are checked.
pub open spec fn check_request(s: SessionState, command: u8, addr_type: u8) -> (SessionState, ActionView) {
    match command_of(command as int) {
        None => (
            enter(s, Phase::Rejecting { error: SessionError::InvalidCommand }),
            ActionView::Shutdown,
        ),
        Some(c) => match addr_type_of(addr_type as int) {
            None => (
                enter(s, Phase::Rejecting { error: SessionError::InvalidAddrType }),
                ActionView::Shutdown,
            ),
            Some(AddrType::Domain) => (
                enter(s, Phase::DomainLength { command: c }),
                ActionView::ReadExact(1),
            ),
            Some(AddrType::V4) => (
                enter(s, Phase::Address { command: c, addr_type: AddrType::V4, length: 4 }),
                ActionView::ReadExact(4),
            ),
            Some(AddrType::V6) => (
                enter(s, Phase::Address { command: c, addr_type: AddrType::V6, length: 16 }),
                ActionView::ReadExact(16),
            ),
        },
    }
}

/// The request header `packet` (VER, CMD, RSV, ATYP) has been read.
pub open spec fn after_request_header(s: SessionState, packet: Seq<u8>) -> (SessionState, ActionView) {
    let s1 = SessionState { request_version: packet[0], ..s };
    if packet[0] != SOCKS_VERSION {
        (
            enter(s1, Phase::VersionMismatch { command_byte: packet[1], addr_type_byte: packet[3] }),
            ActionView::Shutdown,
        )
    } else {
        check_request(s1, packet[1], packet[3])
    }
}

/// The whole request has been read: answer it.
pub open spec fn after_request(
    s: SessionState,
    command: SockCommand,
    addr_type: AddrType,
    addr: Seq<u8>,
    port: u16,
) -> (SessionState, ActionView) {
    match command {
        SockCommand::Bind => finish(s, Err(SessionError::BindNotSupported)),
        SockCommand::UdpAssosiate => finish(s, Err(SessionError::UdpNotSupported)),
        SockCommand::Connect => match destination(addr_type, addr, port) {
            DestinationView::Direct(v) => (
                enter(s, Phase::Connecting),
                ActionView::Connect(v, connect_timeout(s.timeout)),
            ),
            DestinationView::Lookup(h) => (enter(s, Phase::Resolving), ActionView::Lookup(h)),
        },
    }
}

/// The step of a session in state `s` on event `e`: its next state and action.
pub open spec fn transition(s: SessionState, e: EventView) -> (SessionState, ActionView) {
    match e {
        EventView::Failed(k) => finish(s, failure_result(s.phase, k)),
        _ => match s.phase {
            Phase::Greeting => match e {
                EventView::Read(h) => after_greeting(s, h[0], h[1]),
                _ => (s, ActionView::Finish(Err(SessionError::Io))),
            },
            Phase::Methods => (enter(s, Phase::MethodReply), ActionView::Write(method_selection())),
            Phase::MethodReply => (enter(s, Phase::RequestHeader), ActionView::ReadExact(4)),
            Phase::Closing => finish(s, Ok(())),
            Phase::RequestHeader => match e {
                EventView::Read(p) => after_request_header(s, p),
                _ => (s, ActionView::Finish(Err(SessionError::Io))),
            },
            Phase::VersionMismatch { command_byte, addr_type_byte } => check_request(
                s,
                command_byte,
                addr_type_byte,
            ),
            Phase::Rejecting { error } => finish(s, Err(error)),
            Phase::DomainLength { command } => match e {
                EventView::Read(b) => (
                    enter(s, Phase::Address { command, addr_type: AddrType::Domain, length: b[0] }),
                    ActionView::ReadExact(b[0] as nat),
                ),
                _ => (s, ActionView::Finish(Err(SessionError::Io))),
            },
            Phase::Address { command, addr_type, length } => match e {
                EventView::Read(a) => (
                    SessionState { phase: Phase::Port { command, addr_type }, addr: a, ..s },
                    ActionView::ReadExact(2),
                ),
                _ => (s, ActionView::Finish(Err(SessionError::Io))),
            },
            Phase::Port { command, addr_type } => match e {
                EventView::Read(p) => {
                    let req = RequestView {
                        version: s.request_version,
                        command,
                        addr_type,
                        addr: s.addr,
                        port: be_u16(p[0], p[1]),
                    };
                    after_request(
                        SessionState { request: Some(req), ..s },
                        command,
                        addr_type,
                        s.addr,
                        req.port,
                    )
                },
                _ => (s, ActionView::Finish(Err(SessionError::Io))),
            },
            Phase::Resolving => match e {
                EventView::Resolved(v) => (
                    enter(s, Phase::Connecting),
                    ActionView::Connect(v, connect_timeout(s.timeout)),
                ),
                _ => (s, ActionView::Finish(Err(SessionError::Io))),
            },
            Phase::Connecting => (
                enter(s, Phase::Replying),
                ActionView::Write(reply_bytes(response_code(ResponseCode::Success))),
            ),
            Phase::Replying => (enter(s, Phase::Relaying), ActionView::Relay),
            Phase::Relaying => match e {
                EventView::Relayed(n) => finish(SessionState { relayed: n, ..s }, Ok(())),
                _ => (s, ActionView::Finish(Err(SessionError::Io))),
            },
            _ => (s, ActionView::Finish(Err(SessionError::Io))),
        },
    }
}

/// Whether a session in state `s` can take event `e`: the event reports on
/// the action that the session asked for last.
pub open spec fn accepted(s: SessionState, e: EventView) -> bool {
    match e {
        EventView::Failed(_) => s.phase != Phase::Created && s.phase != Phase::Done,
        EventView::Read(b) => match s.phase {
            Phase::Greeting => b.len() == 2,
            Phase::Methods => b.len() == s.auth_nmethods,
            Phase::RequestHeader => b.len() == 4,
            Phase::DomainLength { .. } => b.len() == 1,
            Phase::Address { length, .. } => b.len() == length,
            Phase::Port { .. } => b.len() == 2,
            _ => false,
        },
        EventView::Written => s.phase == Phase::MethodReply || s.phase == Phase::Replying,
        EventView::ShutDown => match s.phase {
            Phase::Closing => true,
            Phase::VersionMismatch { .. } => true,
            Phase::Rejecting { .. } => true,
            _ => false,
        },
        EventView::Resolved(_) => s.phase == Phase::Resolving,
        EventView::Connected => s.phase == Phase::Connecting,
        EventView::Relayed(_) => s.phase == Phase::Relaying,
    }
}

/// The states and actions of a session in state `s` that takes `events` in turn.
pub open spec fn run(s: SessionState, events: Seq<EventView>) -> (SessionState, Seq<ActionView>)
    decreases events.len(),
{
    if events.len() == 0 {
        (s, seq![])
    } else {
        let (s1, a) = transition(s, events[0]);
        let (s2, rest) = run(s1, events.drop_first());
        (s2, seq![a] + rest)
    }
}

/// Whether a session in state `s` can take each of `events` in turn.
pub open spec fn accepts_all(s: SessionState, events: Seq<EventView>) -> bool
    decreases events.len(),
{
    if events.len() == 0 {
        true
    } else {
        accepted(s, events[0]) && accepts_all(transition(s, events[0]).0, events.drop_first())
    }
}

/// What every reachable session state keeps: an address phase expects as many
/// bytes as its address type has, and the stored address of a complete
/// request is long enough for its address type.
pub open spec fn well_formed(s: SessionState) -> bool {
    match s.phase {
        Phase::Address { addr_type, length, .. } => match addr_type {
            AddrType::V4 => length == 4,
            AddrType::V6 => length == 16,
            AddrType::Domain => true,
        },
        Phase::Port { addr_type, .. } => address_fits(addr_type, s.addr.len()),
        _ => true,
    }
}

impl SOCKClient {
    #[verifier::type_invariant]
    spec fn inv(self) -> bool {
        well_formed(self@)
    }

    /// A session that has not started yet, which connects to targets with the
    /// given timeout (500 milliseconds when there is none).
    pub fn new(timeout: Option<ConnectTimeout>) -> (c: SOCKClient)
        ensures
            c@ == fresh(timeout),
    {
        SOCKClient {
            auth_nmethods: 0,
            socks_version: 0,
            request_version: 0,
            timeout,
            phase: Phase::Created,
            addr: Vec::new(),
            relayed: 0,
            request: None,
        }
    }

    /// The session state.
    pub fn phase(&self) -> (p: Phase)
        ensures
            p == self@.phase,
    {
        self.phase
    }

    /// The protocol version that the client's greeting named.
    pub fn socks_version(&self) -> (v: u8)
        ensures
            v == self@.socks_version,
    {
        self.socks_version
    }

    /// The number of authentication methods that the client's greeting offered.
    pub fn auth_nmethods(&self) -> (n: u8)
        ensures
            n == self@.auth_nmethods,
    {
        self.auth_nmethods
    }

    /// The address bytes of the request read so far (empty before them).
    pub fn request_addr(&self) -> (a: &[u8])
        ensures
            a@ == self@.addr,
    {
        self.addr.as_slice()
    }

    /// The number of bytes copied from the target to the client by a relay
    /// that completed (0 when none did).
    pub fn relayed(&self) -> (n: u64)
        ensures
            n == self@.relayed,
    {
        self.relayed
    }

    /// The request, once it has been read in full.
    pub fn request(&self) -> (r: Option<&SOCKSReq>)
        ensures
            r is None <==> self@.request is None,
            r matches Some(q) ==> self@.request == Some(q@),
    {
        match &self.request {
            Some(q) => Some(q),
            None => None,
        }
    }

    /// Start the session: read the client's greeting.
    pub fn init(&mut self) -> (a: Action)
        ensures
            final(self)@ == enter(old(self)@, Phase::Greeting),
            a@ == ActionView::ReadExact(2),
    {
        self.phase = Phase::Greeting;
        Action::ReadExact(2)
    }

    /// Whether the session can take `event` now.
    pub fn accepts(&self, event: &Event) -> (b: bool)
        ensures
            b == accepted(self@, event@),
    {
        match event {
            Event::Failed(_) => !(self.phase == Phase::Created) && !(self.phase == Phase::Done),
            Event::Read(b) => match self.phase {
                Phase::Greeting => b.len() == 2,
                Phase::Methods => b.len() == self.auth_nmethods as usize,
                Phase::RequestHeader => b.len() == 4,
                Phase::DomainLength { .. } => b.len() == 1,
                Phase::Address { length, .. } => b.len() == length as usize,
                Phase::Port { .. } => b.len() == 2,
                _ => false,
            },
            Event::Written => self.phase == Phase::MethodReply || self.phase == Phase::Replying,
            Event::ShutDown => match self.phase {
                Phase::Closing => true,
                Phase::VersionMismatch { .. } => true,
                Phase::Rejecting { .. } => true,
                _ => false,
            },
            Event::Resolved(_) => self.phase == Phase::Resolving,
            Event::Connected => self.phase == Phase::Connecting,
            Event::Relayed(_) => self.phase == Phase::Relaying,
        }
    }

    /// The wait for connections: the client's timeout, else 500 milliseconds.
    fn time_out(&self) -> (t: ConnectTimeout)
        ensures
            t == connect_timeout(self@.timeout),
    {
        match self.timeout {
            Some(t) => t,
            None => ConnectTimeout { secs: 0, nanos: 500_000_000 },
        }
    }

    /// The greeting has been read: check the version, then take the methods.
    fn on_greeting(&mut self, ver: u8, nmethods: u8) -> (a: Action)
        ensures
            (final(self)@, a@) == after_greeting(old(self)@, ver, nmethods),
    {
        proof {
            use_type_invariant(&*self);
        }
        self.socks_version = ver;
        self.auth_nmethods = nmethods;
        if ver == SOCKS_VERSION {
            if nmethods == 0 {
                self.phase = Phase::MethodReply;
                Action::Write(method_selection_bytes())
            } else {
                self.phase = Phase::Methods;
                Action::ReadExact(nmethods as usize)
            }
        } else {
            self.phase = Phase::Closing;
            Action::Shutdown
        }
    }

    /// Check the command and address type of a request.
    fn on_request_fields(&mut self, command: u8, addr_type: u8) -> (a: Action)
        ensures
            (final(self)@, a@) == check_request(old(self)@, command, addr_type),
    {
        match SockCommand::from(command as usize) {
            None => {
                self.phase = Phase::Rejecting { error: SessionError::InvalidCommand };
                Action::Shutdown
            },
            Some(c) => match AddrType::from(addr_type as usize) {
                None => {
                    self.phase = Phase::Rejecting { error: SessionError::InvalidAddrType };
                    Action::Shutdown
                },
                Some(AddrType::Domain) => {
                    self.phase = Phase::DomainLength { command: c };
                    Action::ReadExact(1)
                },
                Some(AddrType::V4) => {
                    self.phase = Phase::Address { command: c, addr_type: AddrType::V4, length: 4 };
                    Action::ReadExact(4)
                },
                Some(AddrType::V6) => {
                    self.phase = Phase::Address { command: c, addr_type: AddrType::V6, length: 16 };
                    Action::ReadExact(16)
                },
            },
        }
    }

    /// The request header has been read.
    fn on_request_header(&mut self, packet: &Vec<u8>) -> (a: Action)
        requires
            packet@.len() == 4,
        ensures
            (final(self)@, a@) == after_request_header(old(self)@, packet@),
    {
        proof {
            use_type_invariant(&*self);
        }
        self.request_version = packet[0];
        if packet[0] != SOCKS_VERSION {
            self.phase = Phase::VersionMismatch { command_byte: packet[1], addr_type_byte: packet[3] };
            Action::Shutdown
        } else {
            self.on_request_fields(packet[1], packet[3])
        }
    }

    /// Answer a complete request: connect for CONNECT, refuse the others.
    fn handle_client(&mut self, req: &SOCKSReq) -> (a: Action)
        requires
            address_fits(req.addr_type, req.addr@.len()),
        ensures
            (final(self)@, a@) == after_request(
                old(self)@,
                req.command,
                req.addr_type,
                req.addr@,
                req.port,
            ),
    {
        match req.command {
            SockCommand::Connect => {
                let time_out = self.time_out();
                match addr_to_socket(&req.addr_type, req.addr.as_slice(), req.port) {
                    Destination::Direct(v) => {
                        self.phase = Phase::Connecting;
                        Action::Connect(v, time_out)
                    },
                    Destination::Lookup(h) => {
                        self.phase = Phase::Resolving;
                        Action::Lookup(h)
                    },
                }
            },
            SockCommand::Bind => {
                self.phase = Phase::Done;
                Action::Finish(Err(SessionError::BindNotSupported))
            },
            SockCommand::UdpAssosiate => {
                self.phase = Phase::Done;
                Action::Finish(Err(SessionError::UdpNotSupported))
            },
        }
    }

    /// Take the outcome of the last action and say what to do next.
    pub fn step(&mut self, event: Event) -> (a: Action)
        requires
            accepted(old(self)@, event@),
        ensures
            (final(self)@, a@) == transition(old(self)@, event@),
    {
        proof {
            use_type_invariant(&*self);
        }
        match event {
            Event::Failed(k) => {
                let r = failure_result_of(self.phase, k);
                self.phase = Phase::Done;
                Action::Finish(r)
            },
            Event::Read(bytes) => match self.phase {
                Phase::Greeting => self.on_greeting(bytes[0], bytes[1]),
                Phase::Methods => {
                    self.phase = Phase::MethodReply;
                    Action::Write(method_selection_bytes())
                },
                Phase::RequestHeader => self.on_request_header(&bytes),
                Phase::DomainLength { command } => {
                    let length = bytes[0];
                    self.phase = Phase::Address { command, addr_type: AddrType::Domain, length };
                    Action::ReadExact(length as usize)
                },
                Phase::Address { command, addr_type, .. } => {
                    self.addr = bytes;
                    self.phase = Phase::Port { command, addr_type };
                    Action::ReadExact(2)
                },
                Phase::Port { command, addr_type } => {
                    let port = merge_u16(bytes[0], bytes[1]);
                    let req = SOCKSReq {
                        version: self.request_version,
                        command,
                        addr_type,
                        addr: self.addr.clone(),
                        port,
                    };
                    let a = self.handle_client(&req);
                    self.request = Some(req);
                    a
                },
                _ => Action::Finish(Err(SessionError::Io)),
            },
            Event::Written => {
                if self.phase == Phase::MethodReply {
                    self.phase = Phase::RequestHeader;
                    Action::ReadExact(4)
                } else {
                    self.phase = Phase::Relaying;
                    Action::Relay
                }
            },
            Event::ShutDown => match self.phase {
                Phase::VersionMismatch { command_byte, addr_type_byte } => self.on_request_fields(
                    command_byte,
                    addr_type_byte,
                ),
                Phase::Rejecting { error } => {
                    self.phase = Phase::Done;
                    Action::Finish(Err(error))
                },
                _ => {
                    self.phase = Phase::Done;
                    Action::Finish(Ok(()))
                },
            },
            Event::Resolved(v) => {
                let time_out = self.time_out();
                self.phase = Phase::Connecting;
                Action::Connect(v, time_out)
            },
            Event::Connected => {
                let reply = SocksReply::new(ResponseCode::Success);
                self.phase = Phase::Replying;
                Action::Write(reply.to_bytes())
            },
            Event::Relayed(n) => {
                self.relayed = n;
                self.phase = Phase::Done;
                Action::Finish(Ok(()))
            },
        }
    }
}

/// The method selection message, ready to be written.
fn method_selection_bytes() -> (v: Vec<u8>)
    ensures
        v@ == method_selection(),
{
    let v = vec![SOCKS_VERSION, 0u8];
    assert(v@ =~= method_selection());
    v
}

/// How a session ends when its pending operation in `phase` failed with `kind`.
pub fn failure_result_of(phase: Phase, kind: FailureKind) -> (r: Result<(), SessionError>)
    ensures
        r == failure_result(phase, kind),
{
    match phase {
        Phase::Connecting => {
            if kind == FailureKind::TimedOut {
                Err(SessionError::Timeout)
            } else {
                Err(SessionError::Io)
            }
        },
        Phase::Relaying => {
            if kind == FailureKind::NotConnected {
                Ok(())
            } else {
                Err(SessionError::Relay)
            }
        },
        _ => Err(SessionError::Io),
    }
}

} // verus!
