//! A SOCKS5 proxy server core: the wire codes of RFC 1928, the decoding of a
//! client's request into a connection target, and the server side of a SOCKS5
//! session as a state machine whose I/O is carried out by its caller.

pub mod address;
pub mod codes;
pub mod laws;
pub mod session;

pub use address::{addr_to_socket, Destination, TargetAddr};
pub use codes::{AddrType, ResponseCode, SockCommand, SocksReply};
pub use session::{
    Action, ConnectTimeout, Event, FailureKind, Phase, SOCKClient, SOCKSReq, SessionError,
};
