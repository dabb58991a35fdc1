//! The port check: which stream requests are eligible for HTTP service.
use vstd::prelude::*;

verus! {

/// The port on which plain HTTP is served.
pub const HTTP_PORT: u16 = 80;

/// The port on which HTTPS is served.
pub const HTTPS_PORT: u16 = 443;

/// What a stream request asks of the service, reduced to what admission reads.
#[derive(Clone, Copy, Debug, PartialEq, Eq, Structural)]
pub enum RequestDescriptor {
    /// A request to open a data stream to the given destination port.
    Begin { port: u16 },
    /// A request for a directory stream.
    BeginDir,
    /// A request to resolve a host name.
    Resolve,
    /// Any other kind of request.
    Other,
}

/// A port is in the allow-set exactly when it is the HTTP or the HTTPS port.
pub open spec fn port_allowed(port: u16) -> bool {
    port == HTTP_PORT || port == HTTPS_PORT
}

/// A request is admitted exactly when it opens a data stream to an allowed port.
pub open spec fn admitted(d: RequestDescriptor) -> bool {
    match d {
        RequestDescriptor::Begin { port } => port_allowed(port),
        _ => false,
    }
}

/// Decides whether a destination port is in the allow-set.
pub fn admit_port(port: u16) -> (r: bool)
    ensures
        r == port_allowed(port),
{
    port == HTTP_PORT || port == HTTPS_PORT
}

/// Decides whether a stream request is eligible for HTTP service.
pub fn admits(d: &RequestDescriptor) -> (r: bool)
    ensures
        r == admitted(*d),
{
    match d {
        RequestDescriptor::Begin { port } => admit_port(*port),
        _ => false,
    }
}

} // verus!
