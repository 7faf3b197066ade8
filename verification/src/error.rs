use vstd::prelude::*;

verus! {

/// The failure categories a handler operation can surface.
#[derive(Clone, Copy, Debug, PartialEq, Eq, Structural)]
pub enum ErrorKind {
    /// A host name could not be resolved.
    DnsFailed,
    /// A socket-level connect failed for every candidate address.
    DialFailed,
    /// Protocol setup (such as a SOCKS5 handshake) failed.
    HandshakeFailed,
    /// A domain address arrived where a numeric one is required.
    UnsupportedAddress,
    /// A per-attempt deadline elapsed.
    Timeout,
    /// A composite handler tried every child and all failed.
    OutboundExhausted,
    /// A schedule index fell outside the child list; fatal for the flow.
    InvalidConfig,
}

/// An error carried back to the dispatcher.  When a composite handler
/// reports exhaustion it keeps the last child failure as context.
#[derive(Clone, Copy, Debug)]
pub struct ProxyError {
    pub kind: ErrorKind,
    pub last_child: Option<ErrorKind>,
}

impl ProxyError {
    /// Context is carried only on exhaustion reports.
    pub open spec fn wf(self) -> bool {
        self.last_child is Some ==> self.kind == ErrorKind::OutboundExhausted
    }

    /// A leaf error: no child context.
    pub fn simple(kind: ErrorKind) -> (e: ProxyError)
        requires
            kind != ErrorKind::OutboundExhausted,
        ensures
            e.kind == kind,
            e.last_child is None,
            e.wf(),
    {
        ProxyError { kind, last_child: None }
    }

    /// The aggregate a composite handler returns once every child has been
    /// tried: the individual failures are folded into exhaustion, with the
    /// last one kept for diagnostics.
    pub fn exhausted(last_child: Option<ErrorKind>) -> (e: ProxyError)
        ensures
            e.kind == ErrorKind::OutboundExhausted,
            e.last_child == last_child,
            e.wf(),
    {
        ProxyError { kind: ErrorKind::OutboundExhausted, last_child }
    }
}

} // verus!
