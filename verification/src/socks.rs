use vstd::prelude::*;
use crate::addr::{Endpoint, SocksAddr};
use crate::error::{ErrorKind, ProxyError};
use crate::handler::{ConnectAddr, UdpTransportType};

use vstd::string::StringExecFns;

verus! {

/// A SOCKS5 UDP outbound: it dials a TCP control channel to the server,
/// performs a UDP ASSOCIATE with no authentication, and relays datagrams
/// through the relay endpoint the server names.  The control channel is
/// held for the lifetime of the association.  This leaf cannot layer on
/// a pre-supplied upstream stream: it always dials its own.
#[derive(Clone, Debug)]
pub struct SocksOutbound {
    pub server_host: String,
    pub server_port: u16,
    pub bind: Endpoint,
}

impl SocksOutbound {
    pub fn new(server_host: String, server_port: u16, bind: Endpoint) -> (h: SocksOutbound)
        ensures
            h.server_host@ == server_host@,
            h.server_port == server_port,
            h.bind == bind,
    {
        SocksOutbound { server_host, server_port, bind }
    }

    /// The upstream this handler dials, advertised so the TUN fake-DNS
    /// and NAT layers can break forwarding loops.
    pub fn connect_addr(&self) -> (r: ConnectAddr)
        ensures
            r.host@ == self.server_host@,
            r.port == self.server_port,
            r.bind == self.bind,
    {
        ConnectAddr { host: self.server_host.clone(), port: self.server_port, bind: self.bind }
    }

    /// The association carries datagrams, not a stream.
    pub fn transport_type(&self) -> (t: UdpTransportType)
        ensures
            t == UdpTransportType::Packet,
    {
        UdpTransportType::Packet
    }
}

/// Filters the peer address of a relayed reply: only a numeric reply
/// address surfaces to the consumer, with the payload length untouched; a
/// reply carrying a domain address is rejected as unsupported.
pub fn accept_udp_reply(n: usize, reply_peer: &SocksAddr) -> (r: Result<
    (usize, Endpoint),
    ProxyError,
>)
    ensures
        match *reply_peer {
            SocksAddr::Ip(ep) => r == Result::<(usize, Endpoint), ProxyError>::Ok((n, ep)),
            SocksAddr::Domain(_, _) => r == Result::<(usize, Endpoint), ProxyError>::Err(
                (ProxyError { kind: ErrorKind::UnsupportedAddress, last_child: None }),
            ),
        },
{
    match reply_peer {
        SocksAddr::Ip(ep) => Ok((n, *ep)),
        SocksAddr::Domain(_, _) => Err(ProxyError::simple(ErrorKind::UnsupportedAddress)),
    }
}


/// The kind name this handler reports for telemetry.
pub fn name() -> (n: String)
    ensures
        n@ == "socks"@,
{
    String::from_str("socks")
}

} // verus!
