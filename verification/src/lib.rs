//! A per-connection process-relay server core: a proof-of-work challenge
//! protocol and the decision logic of a socket-to-process byte relay.

pub mod messages;
pub mod pow;
pub mod relay;
pub mod session;
pub mod text;

use vstd::prelude::*;

verus! {

/// True iff `b` is a printable ASCII byte (space through tilde).
pub open spec fn is_printable(b: u8) -> bool {
    0x20 <= b && b < 0x7f
}

} // verus!
