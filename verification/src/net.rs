//! Plain-value models of the socket-facing data, and the pure decisions of
//! the socket calls.
//!
//! The network stack itself lives outside this crate; what is verified here
//! is the data these calls exchange — addresses, socket kinds, shutdown
//! modes — and the validation each call performs before any stack work:
//! which socket requests are accepted, and which bind addresses are legal.

use vstd::prelude::*;

verus! {

/// The kernel's error values, as far as the socket and file paths use them.
#[derive(Clone, Copy, Debug, PartialEq, Eq, Structural)]
pub enum KernelError {
    InvalidValue,
    NotSupported,
    BadFd,
}

/// A raw C-style socket address as user space hands it in: an address
/// family tag and opaque payload bytes.
#[derive(Clone, Copy, Debug)]
pub struct SocketAddr {
    pub sa_family: u32,
    pub sa_data: [char; 14],
}

/// The address family tag of an IPv4 request.
pub const AF_INET: i32 = 2;

/// The address family tag of an IPv6 request.
pub const AF_INET6: i32 = 10;

/// The socket kinds user space can name in a socket request.
#[derive(Clone, Copy, Debug, PartialEq, Eq, Structural)]
pub enum SocketType {
    Dgram,
    Stream,
    Raw,
    Rdm,
    SeqPacket,
    Dccp,
    Packet,
}

/// The numeric code a request uses for each socket kind.
pub open spec fn socket_type_code(t: SocketType) -> int {
    match t {
        SocketType::Dgram => 1,
        SocketType::Stream => 2,
        SocketType::Raw => 3,
        SocketType::Rdm => 4,
        SocketType::SeqPacket => 5,
        SocketType::Dccp => 6,
        SocketType::Packet => 10,
    }
}

/// Whether a numeric code names a socket kind.
pub open spec fn is_socket_type_code(v: int) -> bool {
    1 <= v <= 6 || v == 10
}

impl SocketType {
    /// Decodes a request's numeric socket-kind code; every value outside the
    /// known codes is rejected.
    pub fn try_from(value: i32) -> (r: Result<SocketType, ()>)
        ensures
            r is Ok <==> is_socket_type_code(value as int),
            r matches Ok(t) ==> socket_type_code(t) == value as int,
    {
        match value {
            1 => Ok(SocketType::Dgram),
            2 => Ok(SocketType::Stream),
            3 => Ok(SocketType::Raw),
            4 => Ok(SocketType::Rdm),
            5 => Ok(SocketType::SeqPacket),
            6 => Ok(SocketType::Dccp),
            10 => Ok(SocketType::Packet),
            _ => Err(()),
        }
    }

    /// The numeric code of this socket kind.
    pub fn code(self) -> (r: i32)
        ensures
            r as int == socket_type_code(self),
    {
        match self {
            SocketType::Dgram => 1,
            SocketType::Stream => 2,
            SocketType::Raw => 3,
            SocketType::Rdm => 4,
            SocketType::SeqPacket => 5,
            SocketType::Dccp => 6,
            SocketType::Packet => 10,
        }
    }
}

/// The validation a socket request passes before any socket is built: the
/// kind code must be known, the family IPv4 or IPv6, and only stream
/// sockets are supported; everything else is an invalid-value error.
pub fn socket_request_kind(family: i32, type_: i32) -> (r: Result<SocketType, KernelError>)
    ensures
        r is Ok <==> ((family == AF_INET || family == AF_INET6) && type_ == 2),
        r matches Ok(t) ==> t == SocketType::Stream,
        r matches Err(e) ==> e == KernelError::InvalidValue,
{
    let socket_type = match SocketType::try_from(type_) {
        Ok(t) => t,
        Err(_) => {
            return Err(KernelError::InvalidValue);
        },
    };
    if family != AF_INET && family != AF_INET6 {
        return Err(KernelError::InvalidValue);
    }
    if socket_type.code() != 2 {
        return Err(KernelError::InvalidValue);
    }
    Ok(socket_type)
}

/// How a shutdown call narrows a socket.
#[derive(Clone, Copy, Debug, PartialEq, Eq, Structural)]
pub enum Shutdown {
    Read,
    Write,
    Both,
}

/// An IP address, held as its raw octets.
#[derive(Clone, Copy, Debug, PartialEq, Eq)]
pub enum InetIp {
    V4([u8; 4]),
    V6([u8; 16]),
}

/// An IP endpoint: an address and a port.
#[derive(Clone, Copy, Debug, PartialEq, Eq)]
pub struct InetAddr {
    pub ip: InetIp,
    pub port: u16,
}

/// A socket address as the socket operations take it: an IP endpoint, or a
/// Unix-domain path.
#[derive(Clone, Debug, PartialEq, Eq)]
pub enum SockAddr {
    Inet(InetAddr),
    Unix(Vec<u8>),
}

/// What a received datagram carries besides its payload.
#[derive(Clone, Debug)]
pub struct RecvMeta {
    pub addr: SockAddr,
    pub truncated: bool,
}

/// A listening endpoint: a port, bound either to one address or to all of
/// them.
#[derive(Clone, Copy, Debug, PartialEq, Eq)]
pub struct ListenEndpoint {
    pub ip: Option<InetIp>,
    pub port: u16,
}

/// A socket option's identity, for BSD-style get/set mapping.
pub trait SockOpt {
    type Input;

    type Output;

    /// The `(level, optname)` pair naming this option.
    fn name(&self) -> (i32, i32);
}

/// The decision a TCP bind makes from the address alone: Unix-domain
/// addresses are not supported, port `0` is an invalid value, and any other
/// IP endpoint becomes the listening endpoint handed to the network stack.
pub fn bind_endpoint(addr: &SockAddr) -> (r: Result<ListenEndpoint, KernelError>)
    ensures
        match *addr {
            SockAddr::Unix(_) => r matches Err(e) && e == KernelError::NotSupported,
            SockAddr::Inet(a) => if a.port == 0 {
                r matches Err(e) && e == KernelError::InvalidValue
            } else {
                r matches Ok(ep) && ep.ip == Some(a.ip) && ep.port == a.port
            },
        },
{
    match addr {
        SockAddr::Inet(a) => {
            if a.port == 0 {
                Err(KernelError::InvalidValue)
            } else {
                Ok(ListenEndpoint { ip: Some(a.ip), port: a.port })
            }
        },
        SockAddr::Unix(_) => Err(KernelError::NotSupported),
    }
}

} // verus!
