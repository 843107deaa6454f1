use vstd::prelude::*;

verus! {

/// A failure that the protocol itself decides (as opposed to one of encoding
/// or of the network, which the process around the protocol reports).
#[derive(Debug, Clone, Copy, PartialEq, Eq, Structural)]
pub enum Error {
    /// A peer sent a message that only the other role may send.
    ProtocolRole,
}

} // verus!
