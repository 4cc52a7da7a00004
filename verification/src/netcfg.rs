//! Local address selection for the transport socket.
//!
//! The socket binds to a wildcard address of the same family as the
//! remote, with an ephemeral port.  Resolving the remote name to an
//! address family is the surrounding process's job; the choice itself is
//! made here.

use vstd::prelude::*;

verus! {

/// The address family of the resolved remote address.
#[derive(Debug, PartialEq, Eq, Clone, Copy)]
pub enum AddrFamily {
    V4,
    V6,
}

/// The wildcard bind address for a remote of the given family.  A remote
/// that resolved to nothing falls back to the IPv4 wildcard.
pub open spec fn spec_bind_addr(family: Option<AddrFamily>) -> Seq<char> {
    match family {
        Option::Some(AddrFamily::V6) => "[::]:0"@,
        _ => "0.0.0.0:0"@,
    }
}

/// Pick the local bind address matching the remote's address family.
pub fn select_bind_addr(family: Option<AddrFamily>) -> (addr: &'static str)
    ensures
        addr@ == spec_bind_addr(family),
{
    match family {
        Option::Some(AddrFamily::V6) => "[::]:0",
        _ => "0.0.0.0:0",
    }
}

} // verus!
