use vstd::prelude::*;

verus! {

/// A resolved socket address of a peer.
#[derive(Debug, Clone, Copy, PartialEq, Eq)]
pub enum Endpoint {
    /// An IPv4 address, octets most significant first, and a port.
    V4 { ip: [u8; 4], port: u16 },
    /// An IPv6 address as eight 16-bit segments, a port, and the flow
    /// information and scope id the text gave (0 where it gave none).
    V6 { ip: [u16; 8], port: u16, flowinfo: u32, scope_id: u32 },
}

/// The socket address that std's `SocketAddr` parser reads from `text`;
/// `None` where it rejects the text.
pub uninterp spec fn socket_address_of(text: Seq<char>) -> Option<Endpoint>;

/// Relies on std's `str::parse::<SocketAddr>`: the address and port of an
/// IPv4 (`a.b.c.d:port`) or IPv6 (`[segments]:port`) socket address, a function
/// of the text alone; any other text, host names included, is rejected.
#[verifier::external_body]
pub(crate) fn parse_socket_address(text: &str) -> (r: Option<Endpoint>)
    ensures
        r == socket_address_of(text@),
{
    match text.parse::<core::net::SocketAddr>() {
        Ok(core::net::SocketAddr::V4(a)) => Some(Endpoint::V4 { ip: a.ip().octets(), port: a.port() }),
        Ok(core::net::SocketAddr::V6(a)) => Some(
            Endpoint::V6 { ip: a.ip().segments(), port: a.port(), flowinfo: a.flowinfo(), scope_id: a.scope_id() },
        ),
        Err(_) => None,
    }
}

} // verus!
