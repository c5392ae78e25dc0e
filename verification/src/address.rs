use vstd::prelude::*;

use crate::codes::AddrType;

verus! {

/// A socket address to connect to, held as plain values: an IPv4 address and
/// port, or an IPv6 address, port, flow information and scope id.
#[derive(Debug, Clone, Copy, PartialEq, Eq)]
pub enum TargetAddr {
    V4 { octets: [u8; 4], port: u16 },
    V6 { segments: [u16; 8], port: u16, flowinfo: u32, scope_id: u32 },
}

/// The mathematical form of a [`TargetAddr`].
pub enum TargetAddrView {
    V4 { octets: Seq<u8>, port: u16 },
    V6 { segments: Seq<u16>, port: u16, flowinfo: u32, scope_id: u32 },
}

impl View for TargetAddr {
    type V = TargetAddrView;

    open spec fn view(&self) -> TargetAddrView {
        match *self {
            TargetAddr::V4 { octets, port } => TargetAddrView::V4 { octets: octets@, port },
            TargetAddr::V6 { segments, port, flowinfo, scope_id } => TargetAddrView::V6 {
                segments: segments@,
                port,
                flowinfo,
                scope_id,
            },
        }
    }
}

/// The views of a sequence of target addresses.
pub open spec fn targets_view(v: Seq<TargetAddr>) -> Seq<TargetAddrView> {
    v.map_values(|t: TargetAddr| t@)
}

/// Where a request's destination leads: straight to known socket addresses, or
/// to a host name (as `host:port`) that has yet to be resolved.
#[derive(Debug, PartialEq, Eq)]
pub enum Destination {
    Direct(Vec<TargetAddr>),
    Lookup(String),
}

/// The mathematical form of a [`Destination`].
pub enum DestinationView {
    Direct(Seq<TargetAddrView>),
    Lookup(Seq<char>),
}

impl View for Destination {
    type V = DestinationView;

    open spec fn view(&self) -> DestinationView {
        match self {
            Destination::Direct(v) => DestinationView::Direct(targets_view(v@)),
            Destination::Lookup(s) => DestinationView::Lookup(s@),
        }
    }
}

/// Two bytes in network (big-endian) order, read as one 16-bit number.
pub open spec fn be_u16(hi: u8, lo: u8) -> u16 {
    (hi as int * 256 + lo as int) as u16
}

/// The eight 16-bit groups of an IPv6 address given as (at least) 16 bytes.
pub open spec fn v6_segments(addr: Seq<u8>) -> Seq<u16> {
    Seq::new(8, |i: int| be_u16(addr[2 * i], addr[2 * i + 1]))
}

/// The decimal digit character of `d`, for `d < 10`.
pub open spec fn digit_char(d: nat) -> char {
    if d == 0 {
        '0'
    } else if d == 1 {
        '1'
    } else if d == 2 {
        '2'
    } else if d == 3 {
        '3'
    } else if d == 4 {
        '4'
    } else if d == 5 {
        '5'
    } else if d == 6 {
        '6'
    } else if d == 7 {
        '7'
    } else if d == 8 {
        '8'
    } else {
        '9'
    }
}

/// The decimal notation of `n`, without leading zeros.
pub open spec fn decimal(n: nat) -> Seq<char>
    decreases n,
{
    if n < 10 {
        seq![digit_char(n)]
    } else {
        decimal(n / 10) + seq![digit_char(n % 10)]
    }
}

/// Names what `String::from_utf8_lossy` makes of a sequence of bytes.
pub uninterp spec fn utf8_lossy(bytes: Seq<u8>) -> Seq<char>;

/// The host string handed to name resolution: the name decoded as UTF-8
/// (invalid sequences replaced), a colon and the port in decimal.
pub open spec fn host_with_port(name: Seq<u8>, port: u16) -> Seq<char> {
    utf8_lossy(name) + seq![':'] + decimal(port as nat)
}

/// The destination of a request with address type `t`, address `addr` and `port`.
pub open spec fn destination(t: AddrType, addr: Seq<u8>, port: u16) -> DestinationView {
    match t {
        AddrType::V4 => DestinationView::Direct(
            seq![TargetAddrView::V4 { octets: addr.subrange(0, 4), port }],
        ),
        AddrType::V6 => DestinationView::Direct(
            seq![TargetAddrView::V6 { segments: v6_segments(addr), port, flowinfo: 0, scope_id: 0 }],
        ),
        AddrType::Domain => DestinationView::Lookup(host_with_port(addr, port)),
    }
}

/// How many address bytes an address type needs.
pub open spec fn address_fits(t: AddrType, len: nat) -> bool {
    match t {
        AddrType::V4 => len >= 4,
        AddrType::V6 => len >= 16,
        AddrType::Domain => true,
    }
}

/// `String::from_utf8_lossy`, turned into an owned string.
///
/// Trusted: the result is named `utf8_lossy` of the bytes; where the bytes are
/// valid UTF-8 the result is their decoding, and where every byte is ASCII the
/// result is those bytes, one character each, as UTF-8 decodes ASCII.
#[verifier::external_body]
fn decode_lossy(bytes: &[u8]) -> (s: String)
    ensures
        s@ == utf8_lossy(bytes@),
        vstd::utf8::valid_utf8(bytes@) ==> s@ == vstd::utf8::decode_utf8(bytes@),
        (forall|i: int| 0 <= i < bytes@.len() ==> bytes@[i] < 128) ==> s@ == bytes@.map_values(
            |b: u8| b as char,
        ),
{
    String::from_utf8_lossy(bytes).into_owned()
}

/// Merge two bytes in network order into a `u16`.
pub fn merge_u16(hi: u8, lo: u8) -> (r: u16)
    ensures
        r == be_u16(hi, lo),
        r as int == hi as int * 256 + lo as int,
{
    let r = ((hi as u16) << 8u16) | (lo as u16);
    assert(((hi as u16) << 8u16) | (lo as u16) == hi as int * 256 + lo as int) by (bit_vector);
    r
}

/// The text of a single decimal digit.
fn digit_str(d: u16) -> (s: &'static str)
    requires
        d < 10,
    ensures
        s@ == seq![digit_char(d as nat)],
{
    proof {
        reveal_strlit("0");
        reveal_strlit("1");
        reveal_strlit("2");
        reveal_strlit("3");
        reveal_strlit("4");
        reveal_strlit("5");
        reveal_strlit("6");
        reveal_strlit("7");
        reveal_strlit("8");
        reveal_strlit("9");
    }
    if d == 0 {
        "0"
    } else if d == 1 {
        "1"
    } else if d == 2 {
        "2"
    } else if d == 3 {
        "3"
    } else if d == 4 {
        "4"
    } else if d == 5 {
        "5"
    } else if d == 6 {
        "6"
    } else if d == 7 {
        "7"
    } else if d == 8 {
        "8"
    } else {
        "9"
    }
}

/// Append the decimal notation of `n` to `s`.
pub fn push_decimal(s: &mut String, n: u16)
    ensures
        final(s)@ == old(s)@ + decimal(n as nat),
    decreases n,
{
    if n >= 10 {
        push_decimal(s, n / 10);
    }
    s.append(digit_str(n % 10));
    assert(final(s)@ =~= old(s)@ + decimal(n as nat));
}

/// Convert an address and AddrType to the socket addresses to connect to, or,
/// for a domain name, to the `host:port` string that name resolution takes.
pub fn addr_to_socket(addr_type: &AddrType, addr: &[u8], port: u16) -> (d: Destination)
    requires
        address_fits(*addr_type, addr@.len()),
    ensures
        d@ == destination(*addr_type, addr@, port),
        (*addr_type == AddrType::Domain && forall|i: int| 0 <= i < addr@.len() ==> addr@[i] < 128)
            ==> d@ == DestinationView::Lookup(
            addr@.map_values(|b: u8| b as char) + seq![':'] + decimal(port as nat),
        ),
{
    match addr_type {
        AddrType::V6 => {
            let segments: [u16; 8] = [
                merge_u16(addr[0], addr[1]),
                merge_u16(addr[2], addr[3]),
                merge_u16(addr[4], addr[5]),
                merge_u16(addr[6], addr[7]),
                merge_u16(addr[8], addr[9]),
                merge_u16(addr[10], addr[11]),
                merge_u16(addr[12], addr[13]),
                merge_u16(addr[14], addr[15]),
            ];
            let t = TargetAddr::V6 { segments, port, flowinfo: 0, scope_id: 0 };
            assert(segments@ =~= v6_segments(addr@));
            let v = vec![t];
            assert(targets_view(v@) =~= seq![t@]);
            Destination::Direct(v)
        },
        AddrType::V4 => {
            let octets: [u8; 4] = [addr[0], addr[1], addr[2], addr[3]];
            let t = TargetAddr::V4 { octets, port };
            assert(octets@ =~= addr@.subrange(0, 4));
            let v = vec![t];
            assert(targets_view(v@) =~= seq![t@]);
            Destination::Direct(v)
        },
        AddrType::Domain => {
            let mut domain = decode_lossy(addr);
            domain.append(":");
            push_decimal(&mut domain, port);
            proof {
                reveal_strlit(":");
            }
            assert(domain@ =~= host_with_port(addr@, port));
            Destination::Lookup(domain)
        },
    }
}

} // verus!
