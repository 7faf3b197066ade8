use vstd::prelude::*;
use crate::addr::{parse_ip, parse_ip_chars, Endpoint};
use crate::error::{ErrorKind, ProxyError};

use vstd::string::StringExecFns;

use crate::handler::{ConnectAddr, UdpTransportType};

verus! {

/// The fixed target a redirect handler rewrites every datagram to.
#[derive(Clone, Copy, Debug, PartialEq, Eq, Structural)]
pub struct RedirectTarget {
    pub target: Endpoint,
}

impl RedirectTarget {
    /// Records a numeric target handed over directly.
    pub fn new(target: Endpoint) -> (t: RedirectTarget)
        ensures
            t.target == target,
    {
        RedirectTarget { target }
    }

    /// Records a target configured as a numeric address — a dotted quad
    /// or a v6 literal — and a port.  Any other string is a
    /// configuration error.
    pub fn from_config(address: &str, port: u16) -> (r: Result<RedirectTarget, ProxyError>)
        ensures
            match parse_ip_chars(address@) {
                Some(ip) => r == Result::<RedirectTarget, ProxyError>::Ok(
                    RedirectTarget { target: Endpoint { ip, port } },
                ),
                None => r == Result::<RedirectTarget, ProxyError>::Err(
                    (ProxyError { kind: ErrorKind::InvalidConfig, last_child: None }),
                ),
            },
    {
        match parse_ip(address) {
            Some(ip) => Ok(RedirectTarget { target: Endpoint { ip, port } }),
            None => Err(ProxyError::simple(ErrorKind::InvalidConfig)),
        }
    }

    /// Where a datagram is actually sent: always the recorded target.
    /// The peer the caller asked for is ignored, whatever it is — that
    /// is the transparent rewrite this handler exists for.
    pub fn send_plan(&self, payload: Vec<u8>, _requested_peer: &Endpoint) -> (r: (
        Vec<u8>,
        Endpoint,
    ))
        ensures
            r.0@ == payload@,
            r.1 == self.target,
    {
        (payload, self.target)
    }

    /// The peer reported for a received datagram: always the recorded
    /// target, whatever the actual source was, so consumers see one
    /// stable logical peer.
    pub fn recv_peer(&self, _actual_source: &Endpoint) -> (p: Endpoint)
        ensures
            p == self.target,
    {
        self.target
    }
}


/// The kind name this handler reports for telemetry.
pub fn name() -> (n: String)
    ensures
        n@ == "redirect"@,
{
    String::from_str("redirect")
}

/// The rewrite target is not an upstream dial: nothing is advertised.
pub fn connect_addr() -> (r: Option<ConnectAddr>)
    ensures
        r is None,
{
    None
}

/// The association carries datagrams, not a stream.
pub fn transport_type() -> (t: UdpTransportType)
    ensures
        t == UdpTransportType::Packet,
{
    UdpTransportType::Packet
}

} // verus!
