use vstd::prelude::*;

verus! {

/// An address in the XOR metric space.
#[derive(Clone, Copy, Debug, PartialEq, Eq, Structural)]
pub struct XorName(pub u64);

/// A public signing key. Messages carry each signature as the key that made it. This library
/// checks which keys signed: the relay of a hop, the signers of a message, and how many. It
/// does not check signature bytes against a key: a message handed to it is taken to hold
/// only signatures that were checked cryptographically before.
#[derive(Clone, Copy, Debug, PartialEq, Eq, Structural)]
pub struct PublicKey(pub u64);

/// A handle of a directly connected transport peer.
#[derive(Clone, Copy, Debug, PartialEq, Eq, Structural)]
pub struct PeerId(pub u64);

/// A unique identifier of a message's content.
#[derive(Clone, Copy, Debug, PartialEq, Eq, Structural)]
pub struct MessageId(pub u64);

} // verus!
