use vstd::prelude::*;
use crate::addr::Endpoint;

verus! {

/// How a UDP association reaches its upstream: as datagrams, or tunneled
/// over a stream transport.
#[derive(Clone, Copy, Debug, PartialEq, Eq, Structural)]
pub enum UdpTransportType {
    Packet,
    Stream,
}

/// The upstream a handler advertises it will dial: host, port and the
/// local address the dial is bound to.  The TUN fake-DNS and NAT layers
/// read it to break forwarding loops; absence means the handler opens no
/// observable upstream socket.
#[derive(Clone, Debug)]
pub struct ConnectAddr {
    pub host: String,
    pub port: u16,
    pub bind: Endpoint,
}

} // verus!
