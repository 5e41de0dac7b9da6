use vstd::prelude::*;
use crate::types::PeerId;

verus! {

/// Errors reported to the issuer of an action.
#[derive(Clone, Copy, Debug, PartialEq, Eq, Structural)]
pub enum InterfaceError {
    /// The action is not allowed in the node's current state.
    InvalidState,
}

/// Protocol errors raised while handling a message; they are dropped locally and never fatal.
#[derive(Clone, Copy, Debug, PartialEq, Eq, Structural)]
pub enum RoutingError {
    /// The received bytes did not decode to a message.
    SerialisationError,
    /// The message was seen before.
    FilterCheckFailed,
    /// The message came from a peer that this node does not trust.
    UnknownConnection(PeerId),
    /// The message names a proxy node that this node is not connected to.
    ProxyConnectionNotFound,
    /// The message's source authority cannot be used from this state.
    InvalidSource,
    /// A signature is not from a key entitled to sign, or a signer signed twice.
    FailedSignature,
    /// The signatures do not reach the quorum that the source authority needs.
    NotEnoughSignatures,
}

} // verus!
