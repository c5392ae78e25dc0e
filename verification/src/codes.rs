use vstd::prelude::*;

verus! {

/// The SOCKS protocol version spoken by this server.
pub const SOCKS_VERSION: u8 = 5u8;

/// The value of the reserved (RSV) byte in replies.
pub const RESERVED: u8 = 0u8;

/// The command (CMD) of a SOCKS5 request.
#[derive(Debug, Clone, Copy, PartialEq, Eq, Structural)]
pub enum SockCommand {
    /// CONNECT, X'01'
    Connect,
    /// BIND, X'02'
    Bind,
    /// UDP ASSOCIATE, X'03'
    UdpAssosiate,
}

/// The wire value of a command.
pub open spec fn command_code(c: SockCommand) -> u8 {
    match c {
        SockCommand::Connect => 1,
        SockCommand::Bind => 2,
        SockCommand::UdpAssosiate => 3,
    }
}

/// The command whose wire value is `n`, if any.
pub open spec fn command_of(n: int) -> Option<SockCommand> {
    if n == 1 {
        Some(SockCommand::Connect)
    } else if n == 2 {
        Some(SockCommand::Bind)
    } else if n == 3 {
        Some(SockCommand::UdpAssosiate)
    } else {
        None
    }
}

impl SockCommand {
    /// Parse Byte to Command
    pub fn from(n: usize) -> (res: Option<SockCommand>)
        ensures
            res == command_of(n as int),
    {
        match n {
            1 => Some(SockCommand::Connect),
            2 => Some(SockCommand::Bind),
            3 => Some(SockCommand::UdpAssosiate),
            _ => None,
        }
    }
}

/// The type of a destination address (ATYP).
#[derive(Debug, Clone, Copy, PartialEq, Eq, Structural)]
pub enum AddrType {
    /// IP V4 address: X'01'
    V4,
    /// DOMAINNAME: X'03'
    Domain,
    /// IP V6 address: X'04'
    V6,
}

/// The wire value of an address type.
pub open spec fn addr_type_code(t: AddrType) -> u8 {
    match t {
        AddrType::V4 => 1,
        AddrType::Domain => 3,
        AddrType::V6 => 4,
    }
}

/// The address type whose wire value is `n`, if any.
pub open spec fn addr_type_of(n: int) -> Option<AddrType> {
    if n == 1 {
        Some(AddrType::V4)
    } else if n == 3 {
        Some(AddrType::Domain)
    } else if n == 4 {
        Some(AddrType::V6)
    } else {
        None
    }
}

impl AddrType {
    /// Parse Byte to Address Type
    pub fn from(n: usize) -> (res: Option<AddrType>)
        ensures
            res == addr_type_of(n as int),
    {
        match n {
            1 => Some(AddrType::V4),
            3 => Some(AddrType::Domain),
            4 => Some(AddrType::V6),
            _ => None,
        }
    }
}

/// Possible SOCKS5 Response Codes
#[derive(Debug, Clone, Copy, PartialEq, Eq, Structural)]
pub enum ResponseCode {
    Success,
    Failure,
    RuleFailure,
    NetworkUnreachable,
    HostUnreachable,
    ConnectionRefused,
    TtlExpired,
    CommandNotSupported,
    AddrTypeNotSupported,
}

/// The wire value (REP) of a response code.
pub open spec fn response_code(r: ResponseCode) -> u8 {
    match r {
        ResponseCode::Success => 0x00,
        ResponseCode::Failure => 0x01,
        ResponseCode::RuleFailure => 0x02,
        ResponseCode::NetworkUnreachable => 0x03,
        ResponseCode::HostUnreachable => 0x04,
        ResponseCode::ConnectionRefused => 0x05,
        ResponseCode::TtlExpired => 0x06,
        ResponseCode::CommandNotSupported => 0x07,
        ResponseCode::AddrTypeNotSupported => 0x08,
    }
}

impl ResponseCode {
    /// The wire value (REP) of this response code.
    pub fn code(&self) -> (c: u8)
        ensures
            c == response_code(*self),
    {
        match self {
            ResponseCode::Success => 0x00,
            ResponseCode::Failure => 0x01,
            ResponseCode::RuleFailure => 0x02,
            ResponseCode::NetworkUnreachable => 0x03,
            ResponseCode::HostUnreachable => 0x04,
            ResponseCode::ConnectionRefused => 0x05,
            ResponseCode::TtlExpired => 0x06,
            ResponseCode::CommandNotSupported => 0x07,
            ResponseCode::AddrTypeNotSupported => 0x08,
        }
    }
}

/// The ten bytes of a reply (RFC 1928, section 6) carrying the reply code `rep`:
/// VER = 5, REP, RSV = 0, ATYP = IPv4, BND.ADDR = 0.0.0.0, BND.PORT = 0.
pub open spec fn reply_bytes(rep: u8) -> Seq<u8> {
    seq![SOCKS_VERSION, rep, RESERVED, 1u8, 0u8, 0u8, 0u8, 0u8, 0u8, 0u8]
}

/// A server reply, as sent on the wire:
///
///    +----+-----+-------+------+----------+----------+
///    |VER | REP |  RSV  | ATYP | BND.ADDR | BND.PORT |
///    +----+-----+-------+------+----------+----------+
///    | 1  |  1  | X'00' |  1   | Variable |    2     |
///    +----+-----+-------+------+----------+----------+
#[derive(Debug)]
pub struct SocksReply {
    buf: [u8; 10],
}

impl SocksReply {
    /// The bytes of this reply.
    pub closed spec fn wire(&self) -> Seq<u8> {
        self.buf@
    }

    /// A reply with the given status, bound address 0.0.0.0:0.
    pub fn new(status: ResponseCode) -> (r: Self)
        ensures
            r.wire() == reply_bytes(response_code(status)),
    {
        let buf = [SOCKS_VERSION, status.code(), RESERVED, 1u8, 0u8, 0u8, 0u8, 0u8, 0u8, 0u8];
        let r = SocksReply { buf };
        assert(r.wire() =~= reply_bytes(response_code(status)));
        r
    }

    /// The bytes of this reply, ready to be written.
    pub fn to_bytes(&self) -> (v: Vec<u8>)
        ensures
            v@ == self.wire(),
    {
        let mut v: Vec<u8> = Vec::new();
        let mut i: usize = 0;
        while i < 10
            invariant
                0 <= i <= 10,
                self.buf@.len() == 10,
                v@ == self.buf@.subrange(0, i as int),
            decreases 10 - i,
        {
            v.push(self.buf[i]);
            i = i + 1;
            assert(v@ =~= self.buf@.subrange(0, i as int));
        }
        assert(self.buf@.subrange(0, 10) =~= self.buf@);
        v
    }
}

} // verus!
