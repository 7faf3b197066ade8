use vstd::prelude::*;
use crate::addr::{Endpoint, SocksAddr};

use vstd::string::StringExecFns;

use crate::handler::ConnectAddr;

verus! {

/// How a direct dial proceeds: straight to a numeric destination, or to
/// the addresses a resolver returns for a domain.
#[derive(Clone, Debug)]
pub enum DialPlan {
    /// Dial this endpoint as it stands.
    Numeric(Endpoint),
    /// Ask the resolver for this host's addresses, then dial each in
    /// order until one accepts.
    Resolve(String, u16),
}

/// Plans a direct dial.  A numeric destination is dialed exactly as the
/// client gave it and the resolver is never consulted; only a domain
/// destination involves the resolver.
pub fn dial_plan(dest: &SocksAddr) -> (p: DialPlan)
    ensures
        match *dest {
            SocksAddr::Ip(ep) => p == DialPlan::Numeric(ep),
            SocksAddr::Domain(d, port) => match p {
                DialPlan::Resolve(h, pt) => h@ == d@ && pt == port,
                DialPlan::Numeric(_) => false,
            },
        },
{
    match dest {
        SocksAddr::Ip(ep) => DialPlan::Numeric(*ep),
        SocksAddr::Domain(d, port) => DialPlan::Resolve(d.clone(), *port),
    }
}


/// The kind name this handler reports for telemetry.
pub fn name() -> (n: String)
    ensures
        n@ == "direct"@,
{
    String::from_str("direct")
}

/// A direct dial goes straight to the session's destination: there is no
/// fixed upstream to advertise.
pub fn connect_addr() -> (r: Option<ConnectAddr>)
    ensures
        r is None,
{
    None
}

} // verus!
