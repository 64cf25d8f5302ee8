//! The portable form of a socket address: family, IP and port.
use vstd::prelude::*;

verus! {

/// An address family that a socket can be created in.
#[derive(Clone, Copy, Debug, PartialEq, Eq, Structural)]
pub enum Family {
    V4,
    V6,
}

/// A socket address. The IP is held as the integer whose big-endian bytes
/// are the address's bytes.
#[allow(inconsistent_fields)]
#[derive(Clone, Copy, Debug, PartialEq, Eq, Structural)]
pub enum SockAddr {
    V4 { ip: u32, port: u16 },
    V6 { ip: u128, port: u16, flowinfo: u32, scope_id: u32 },
}

impl SockAddr {
    pub open spec fn spec_family(&self) -> Family {
        match self {
            SockAddr::V4 { .. } => Family::V4,
            SockAddr::V6 { .. } => Family::V6,
        }
    }

    /// The address's family.
    #[verifier::when_used_as_spec(spec_family)]
    pub fn family(&self) -> (f: Family)
        ensures
            f == self.spec_family(),
    {
        match self {
            SockAddr::V4 { .. } => Family::V4,
            SockAddr::V6 { .. } => Family::V6,
        }
    }

    pub open spec fn spec_port(&self) -> u16 {
        match self {
            SockAddr::V4 { port, .. } => *port,
            SockAddr::V6 { port, .. } => *port,
        }
    }

    /// The address's port.
    #[verifier::when_used_as_spec(spec_port)]
    pub fn port(&self) -> (p: u16)
        ensures
            p == self.spec_port(),
    {
        match self {
            SockAddr::V4 { port, .. } => *port,
            SockAddr::V6 { port, .. } => *port,
        }
    }

    pub open spec fn spec_with_port(&self, port: u16) -> SockAddr {
        match *self {
            SockAddr::V4 { ip, .. } => SockAddr::V4 { ip, port },
            SockAddr::V6 { ip, flowinfo, scope_id, .. } => SockAddr::V6 { ip, port, flowinfo, scope_id },
        }
    }

    /// The same address with another port.
    #[verifier::when_used_as_spec(spec_with_port)]
    pub fn with_port(&self, port: u16) -> (a: SockAddr)
        ensures
            a == self.spec_with_port(port),
    {
        match *self {
            SockAddr::V4 { ip, .. } => SockAddr::V4 { ip, port },
            SockAddr::V6 { ip, flowinfo, scope_id, .. } => SockAddr::V6 { ip, port, flowinfo, scope_id },
        }
    }
}

/// Whether `reported`, the local address read back after binding to
/// `requested`, is that address: equal to it, except that a requested port
/// of zero is replaced by the port the system picked.
pub open spec fn bound_as_requested(requested: SockAddr, reported: SockAddr) -> bool {
    if requested.port() == 0 {
        reported.port() != 0 && reported == requested.with_port(reported.port())
    } else {
        reported == requested
    }
}

/// Checks `bound_as_requested(requested, reported)`.
pub fn binding_matches(requested: &SockAddr, reported: &SockAddr) -> (r: bool)
    ensures
        r == bound_as_requested(*requested, *reported),
{
    let p = reported.port();
    if requested.port() == 0 {
        p != 0 && *reported == requested.with_port(p)
    } else {
        *reported == *requested
    }
}

/// Reading back the address a socket was bound to gives that address,
/// with a system-picked port only where port zero was asked for; an address
/// of the other family never passes.
pub proof fn binding_round_trip(requested: SockAddr, picked: u16, other: SockAddr)
    requires
        picked != 0,
        other.family() != requested.family(),
    ensures
        requested.port() != 0 ==> bound_as_requested(requested, requested),
        requested.port() == 0 ==> bound_as_requested(requested, requested.with_port(picked)),
        requested.port() == 0 ==> !bound_as_requested(requested, requested),
        !bound_as_requested(requested, other),
{
}

} // verus!
