//! A minimal HTTP greeting service, verified.
//!
//! The library holds the decision logic of the server: the route
//! dispatcher that turns a request's method and path into a fixed
//! response, and the shutdown coordinator's state machine. The
//! surrounding process (socket handling, the async runtime, signal
//! delivery, logging) lives outside the library and drives it with
//! plain values.

use vstd::prelude::*;

pub mod routes;
pub mod shutdown;

verus! {

/// The fixed loopback address the server binds to, as the four IPv4
/// octets and the TCP port.
pub fn bind_address() -> (r: ([u8; 4], u16))
    ensures
        r.0@ =~= seq![127u8, 0u8, 0u8, 1u8],
        r.1 == 9900,
{
    ([127, 0, 0, 1], 9900)
}

} // verus!
