use vstd::prelude::*;
use crate::error::InterfaceError;
use crate::messages::Authority;
use crate::types::{PeerId, XorName};

verus! {

/// A command from outside the network-facing path. Where the issuer expects an answer, the
/// handler returns a `Reply`, which the issuer's side delivers on its reply channel.
pub enum Action {
    /// Send a user message from a joined node.
    NodeSendMessage { src: Authority, dst: Authority, content: Vec<u8>, priority: u8 },
    /// Send a request from a client.
    ClientSendRequest { content: Vec<u8>, dst: Authority, priority: u8 },
    /// Ask for the node's current address.
    Name,
    /// A timer token fired.
    Timeout(u64),
    /// The outcome of a resource proof, for the peer it concerns.
    ResourceProofResult(PeerId, Vec<Vec<u8>>),
    /// Shut down.
    Terminate,
}

/// The answer to an action that expects one.
#[derive(Clone, Copy, Debug)]
pub enum Reply {
    /// The outcome of a send.
    Sent(Result<(), InterfaceError>),
    /// The node's current address.
    Name(XorName),
}

} // verus!
