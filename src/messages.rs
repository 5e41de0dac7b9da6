use vstd::prelude::*;
use crate::error::RoutingError;
use crate::id::{FullId, PublicId};
use crate::types::{MessageId, PeerId, PublicKey, XorName};

verus! {

/// A logical sender or receiver of a routing message.
#[derive(Clone, Copy, Debug, PartialEq, Eq, Structural)]
pub enum Authority {
    /// A single client, reached through its proxy node.
    Client { client_key: PublicKey, proxy_node_name: XorName, peer_id: PeerId },
    /// A single node, addressed by its name.
    ManagedNode(XorName),
    /// The section managing a client's account.
    ClientManager(XorName),
    /// The section managing a piece of data.
    NaeManager(XorName),
    /// The section managing a node.
    NodeManager(XorName),
    /// The section that an address falls into.
    Section(XorName),
}

impl Authority {
    pub open spec fn spec_is_client(self) -> bool {
        self is Client
    }

    /// Whether this authority is a single client.
    pub fn is_client(&self) -> (r: bool)
        ensures
            r == self.spec_is_client(),
    {
        match self {
            Authority::Client { .. } => true,
            _ => false,
        }
    }
}

/// What a routing message's content is identified by, together with its endpoints.
#[derive(Clone, Copy, Debug, PartialEq, Eq, Structural)]
pub struct MessageKey {
    pub src: Authority,
    pub dst: Authority,
    pub id: MessageId,
    pub ack: bool,
}

/// The acknowledgement of one routing message: the key of the message acknowledged.
#[derive(Clone, Copy, Debug, PartialEq, Eq, Structural)]
pub struct Ack {
    pub key: MessageKey,
}

/// A closed interval of addresses, from its first to its last.
#[derive(Clone, Copy, Debug, PartialEq, Eq, Structural)]
pub struct NameInterval(pub XorName, pub XorName);

/// A copy of a list of keys.
pub fn copy_keys(keys: &Vec<PublicKey>) -> (r: Vec<PublicKey>)
    ensures
        r@ == keys@,
{
    let mut r: Vec<PublicKey> = Vec::new();
    let mut i: usize = 0;
    while i < keys.len()
        invariant
            i <= keys@.len(),
            r@ == keys@.subrange(0, i as int),
        decreases keys@.len() - i,
    {
        r.push(keys[i]);
        i += 1;
    }
    assert(r@ =~= keys@);
    r
}

/// A copy of a byte string.
pub fn copy_bytes(bytes: &Vec<u8>) -> (r: Vec<u8>)
    ensures
        r@ == bytes@,
{
    let mut r: Vec<u8> = Vec::new();
    let mut i: usize = 0;
    while i < bytes.len()
        invariant
            i <= bytes@.len(),
            r@ == bytes@.subrange(0, i as int),
        decreases bytes@.len() - i,
    {
        r.push(bytes[i]);
        i += 1;
    }
    assert(r@ =~= bytes@);
    r
}

/// The content variants of a routing message.
#[derive(Clone, Debug)]
pub enum MessageContent {
    Relocate { public_id: PublicId, message_id: MessageId },
    ExpectCandidate { old_public_id: PublicId, message_id: MessageId },
    ConnectionInfoRequest { pub_id: PublicId, message_id: MessageId },
    ConnectionInfoResponse { pub_id: PublicId, message_id: MessageId },
    SectionUpdate { members: Vec<PublicKey>, message_id: MessageId },
    SectionSplit(MessageId),
    OwnSectionMerge(MessageId),
    OtherSectionMerge(MessageId),
    UserMessagePart { part: Vec<u8>, priority: u8, message_id: MessageId },
    AcceptAsCandidate { public_id: PublicId, message_id: MessageId },
    CandidateApproval { public_id: PublicId, message_id: MessageId },
    NodeApproval { message_id: MessageId },
    /// Acknowledges a message, with the priority to send the acknowledgement at.
    Ack(Ack, u8),
    /// The network's answer to `Relocate`: the interval to pick the new address from, and the
    /// members of the section that will receive the node.
    RelocateResponse { target_interval: NameInterval, section: Vec<PublicKey>, message_id: MessageId },
}

impl MessageContent {
    pub open spec fn spec_message_id(self) -> MessageId {
        match self {
            MessageContent::Relocate { message_id, .. } => message_id,
            MessageContent::ExpectCandidate { message_id, .. } => message_id,
            MessageContent::ConnectionInfoRequest { message_id, .. } => message_id,
            MessageContent::ConnectionInfoResponse { message_id, .. } => message_id,
            MessageContent::SectionUpdate { message_id, .. } => message_id,
            MessageContent::SectionSplit(message_id) => message_id,
            MessageContent::OwnSectionMerge(message_id) => message_id,
            MessageContent::OtherSectionMerge(message_id) => message_id,
            MessageContent::UserMessagePart { message_id, .. } => message_id,
            MessageContent::AcceptAsCandidate { message_id, .. } => message_id,
            MessageContent::CandidateApproval { message_id, .. } => message_id,
            MessageContent::NodeApproval { message_id } => message_id,
            MessageContent::Ack(ack, _) => ack.key.id,
            MessageContent::RelocateResponse { message_id, .. } => message_id,
        }
    }

    pub open spec fn spec_priority(self) -> u8 {
        match self {
            MessageContent::UserMessagePart { priority, .. } => priority,
            MessageContent::Ack(_, priority) => priority,
            _ => 0,
        }
    }

    /// The identifier of the content; an acknowledgement carries that of the message it acks.
    pub fn message_id(&self) -> (r: MessageId)
        ensures
            r == self.spec_message_id(),
    {
        match self {
            MessageContent::Relocate { message_id, .. } => *message_id,
            MessageContent::ExpectCandidate { message_id, .. } => *message_id,
            MessageContent::ConnectionInfoRequest { message_id, .. } => *message_id,
            MessageContent::ConnectionInfoResponse { message_id, .. } => *message_id,
            MessageContent::SectionUpdate { message_id, .. } => *message_id,
            MessageContent::SectionSplit(message_id) => *message_id,
            MessageContent::OwnSectionMerge(message_id) => *message_id,
            MessageContent::OtherSectionMerge(message_id) => *message_id,
            MessageContent::UserMessagePart { message_id, .. } => *message_id,
            MessageContent::AcceptAsCandidate { message_id, .. } => *message_id,
            MessageContent::CandidateApproval { message_id, .. } => *message_id,
            MessageContent::NodeApproval { message_id } => *message_id,
            MessageContent::Ack(ack, _) => ack.key.id,
            MessageContent::RelocateResponse { message_id, .. } => *message_id,
        }
    }

    /// The transport priority of the content: user data and acks carry their own.
    pub fn priority(&self) -> (r: u8)
        ensures
            r == self.spec_priority(),
    {
        match self {
            MessageContent::UserMessagePart { priority, .. } => *priority,
            MessageContent::Ack(_, priority) => *priority,
            _ => 0,
        }
    }

    /// A copy of the content, with the same identifier and priority.
    pub fn duplicate(&self) -> (r: MessageContent)
        ensures
            r.spec_message_id() == self.spec_message_id(),
            r.spec_priority() == self.spec_priority(),
            (r is Ack) == (self is Ack),
    {
        match self {
            MessageContent::Relocate { public_id, message_id } =>
                MessageContent::Relocate { public_id: *public_id, message_id: *message_id },
            MessageContent::ExpectCandidate { old_public_id, message_id } =>
                MessageContent::ExpectCandidate { old_public_id: *old_public_id, message_id: *message_id },
            MessageContent::ConnectionInfoRequest { pub_id, message_id } =>
                MessageContent::ConnectionInfoRequest { pub_id: *pub_id, message_id: *message_id },
            MessageContent::ConnectionInfoResponse { pub_id, message_id } =>
                MessageContent::ConnectionInfoResponse { pub_id: *pub_id, message_id: *message_id },
            MessageContent::SectionUpdate { members, message_id } =>
                MessageContent::SectionUpdate { members: copy_keys(members), message_id: *message_id },
            MessageContent::SectionSplit(message_id) => MessageContent::SectionSplit(*message_id),
            MessageContent::OwnSectionMerge(message_id) => MessageContent::OwnSectionMerge(*message_id),
            MessageContent::OtherSectionMerge(message_id) => MessageContent::OtherSectionMerge(*message_id),
            MessageContent::UserMessagePart { part, priority, message_id } =>
                MessageContent::UserMessagePart { part: copy_bytes(part), priority: *priority, message_id: *message_id },
            MessageContent::AcceptAsCandidate { public_id, message_id } =>
                MessageContent::AcceptAsCandidate { public_id: *public_id, message_id: *message_id },
            MessageContent::CandidateApproval { public_id, message_id } =>
                MessageContent::CandidateApproval { public_id: *public_id, message_id: *message_id },
            MessageContent::NodeApproval { message_id } => MessageContent::NodeApproval { message_id: *message_id },
            MessageContent::Ack(ack, priority) => MessageContent::Ack(*ack, *priority),
            MessageContent::RelocateResponse { target_interval, section, message_id } =>
                MessageContent::RelocateResponse {
                    target_interval: *target_interval,
                    section: copy_keys(section),
                    message_id: *message_id,
                },
        }
    }

    pub fn is_ack(&self) -> (r: bool)
        ensures
            r == (self is Ack),
    {
        match self {
            MessageContent::Ack(..) => true,
            _ => false,
        }
    }
}

/// A message between two authorities.
#[derive(Clone, Debug)]
pub struct RoutingMessage {
    pub src: Authority,
    pub dst: Authority,
    pub content: MessageContent,
}

impl RoutingMessage {
    /// The identity that duplicate filtering and acknowledgement go by.
    pub open spec fn spec_key(self) -> MessageKey {
        MessageKey {
            src: self.src,
            dst: self.dst,
            id: self.content.spec_message_id(),
            ack: self.content is Ack,
        }
    }

    pub fn key(&self) -> (r: MessageKey)
        ensures
            r == self.spec_key(),
    {
        MessageKey {
            src: self.src,
            dst: self.dst,
            id: self.content.message_id(),
            ack: self.content.is_ack(),
        }
    }

    /// A copy of the message, with the same endpoints, identity and priority.
    pub fn duplicate(&self) -> (r: RoutingMessage)
        ensures
            r.src == self.src,
            r.dst == self.dst,
            r.spec_key() == self.spec_key(),
            r.content.spec_priority() == self.content.spec_priority(),
    {
        RoutingMessage { src: self.src, dst: self.dst, content: self.content.duplicate() }
    }

    /// The acknowledgement of `msg`, sent from `src` back to its sender.
    pub open spec fn spec_ack_from(msg: RoutingMessage, src: Authority) -> RoutingMessage {
        RoutingMessage {
            src,
            dst: msg.src,
            content: MessageContent::Ack(Ack { key: msg.spec_key() }, msg.content.spec_priority()),
        }
    }

    /// The acknowledgement that `msg` asks for, sent from `src` back to its sender.
    pub fn ack_from(msg: &RoutingMessage, src: Authority) -> (r: RoutingMessage)
        ensures
            r == RoutingMessage::spec_ack_from(*msg, src),
    {
        RoutingMessage {
            src,
            dst: msg.src,
            content: MessageContent::Ack(Ack { key: msg.key() }, msg.content.priority()),
        }
    }
}

/// The share of a section that must sign a section's message: more than
/// `numerator / denominator` of its members.
#[derive(Clone, Copy, Debug, PartialEq, Eq, Structural)]
pub struct Quorum {
    pub numerator: u32,
    pub denominator: u32,
}

/// Whether the source authority is a single party, which signs alone.
pub open spec fn single_signer(src: Authority) -> bool {
    src is Client || src is ManagedNode
}

/// Whether `key` may sign for `src`: a client signs with its own key, every other source with
/// the key of a listed member.
pub open spec fn may_sign(src: Authority, src_section: Seq<PublicKey>, key: PublicKey) -> bool {
    if src is Client {
        key == src->client_key
    } else {
        src_section.contains(key)
    }
}

pub open spec fn signatures_valid(src: Authority, src_section: Seq<PublicKey>, sigs: Seq<PublicKey>) -> bool {
    &&& sigs.no_duplicates()
    &&& forall|i: int| 0 <= i < sigs.len() ==> may_sign(src, src_section, #[trigger] sigs[i])
}

/// Whether `sigs` signatures are enough for `src`: one for a single party; for a section, more
/// than the quorum share of its members, counted as at least `min_section_size`.
pub open spec fn enough_signatures(
    src: Authority,
    src_section_len: int,
    n_sigs: int,
    min_section_size: int,
    quorum: Quorum,
) -> bool {
    if single_signer(src) {
        n_sigs == 1
    } else {
        let members = if src_section_len > min_section_size { src_section_len } else { min_section_size };
        n_sigs * quorum.denominator > members * quorum.numerator
    }
}

/// A routing message with the signatures of the authority that sent it.
#[derive(Clone, Debug)]
pub struct SignedMessage {
    pub content: RoutingMessage,
    /// The keys of the members of the sending section (of the sending node, for a single node).
    pub src_section: Vec<PublicKey>,
    /// The keys whose signatures the message carries.
    pub signatures: Vec<PublicKey>,
}

impl SignedMessage {
    pub open spec fn spec_integrity(self, min_section_size: int, quorum: Quorum) -> Result<(), RoutingError> {
        if !signatures_valid(self.content.src, self.src_section@, self.signatures@) {
            Err(RoutingError::FailedSignature)
        } else if !enough_signatures(
            self.content.src,
            self.src_section@.len() as int,
            self.signatures@.len() as int,
            min_section_size,
            quorum,
        ) {
            Err(RoutingError::NotEnoughSignatures)
        } else {
            Ok(())
        }
    }

    /// Signs `content` with `full_id`, listing `src_section` as the sending section's members.
    pub fn new(content: RoutingMessage, full_id: &FullId, src_section: Vec<PublicKey>) -> (r: SignedMessage)
        ensures
            r.content == content,
            r.src_section == src_section,
            r.signatures@ == seq![full_id.public_id.signing_public_key],
    {
        let mut signatures: Vec<PublicKey> = Vec::new();
        signatures.push(full_id.public_id.signing_public_key);
        SignedMessage { content, src_section, signatures }
    }

    pub fn routing_message(&self) -> (r: &RoutingMessage)
        ensures
            *r == self.content,
    {
        &self.content
    }

    pub fn priority(&self) -> (r: u8)
        ensures
            r == self.content.content.spec_priority(),
    {
        self.content.content.priority()
    }

    fn key_may_sign(&self, key: PublicKey) -> (r: bool)
        ensures
            r == may_sign(self.content.src, self.src_section@, key),
    {
        if let Authority::Client { client_key, .. } = self.content.src {
            return key == client_key;
        }
        let mut i: usize = 0;
        while i < self.src_section.len()
            invariant
                i <= self.src_section@.len(),
                !(self.content.src is Client),
                forall|j: int| 0 <= j < i ==> self.src_section@[j] != key,
            decreases self.src_section@.len() - i,
        {
            if self.src_section[i] == key {
                assert(self.src_section@[i as int] == key);
                return true;
            }
            i += 1;
        }
        false
    }

    fn has_valid_signatures(&self) -> (r: bool)
        ensures
            r == signatures_valid(self.content.src, self.src_section@, self.signatures@),
    {
        let mut i: usize = 0;
        while i < self.signatures.len()
            invariant
                i <= self.signatures@.len(),
                forall|a: int| 0 <= a < i ==> may_sign(self.content.src, self.src_section@, #[trigger] self.signatures@[a]),
                forall|a: int, b: int| 0 <= a < b < self.signatures@.len() && a < i ==> self.signatures@[a] != self.signatures@[b],
            decreases self.signatures@.len() - i,
        {
            if !self.key_may_sign(self.signatures[i]) {
                assert(!may_sign(self.content.src, self.src_section@, self.signatures@[i as int]));
                assert(!signatures_valid(self.content.src, self.src_section@, self.signatures@));
                return false;
            }
            let mut j: usize = i + 1;
            while j < self.signatures.len()
                invariant
                    i < j <= self.signatures@.len(),
                    forall|b: int| i < b < j ==> self.signatures@[i as int] != self.signatures@[b],
                decreases self.signatures@.len() - j,
            {
                if self.signatures[i] == self.signatures[j] {
                    assert(self.signatures@[i as int] == self.signatures@[j as int]);
                    assert(!self.signatures@.no_duplicates());
                    assert(!signatures_valid(self.content.src, self.src_section@, self.signatures@));
                    return false;
                }
                j += 1;
            }
            i += 1;
        }
        assert(self.signatures@.no_duplicates()) by {
            assert forall|a: int, b: int| 0 <= a < self.signatures@.len() && 0 <= b < self.signatures@.len() && a != b
                implies self.signatures@[a] != self.signatures@[b] by {
                if a > b {
                    assert(self.signatures@[b] != self.signatures@[a]);
                }
            }
        }
        true
    }

    /// Checks that the keys listed as signers are entitled to sign for the source, each once,
    /// and that there are enough of them for the source authority. The signature bytes are
    /// not checked here.
    pub fn check_integrity(&self, min_section_size: usize, quorum: Quorum) -> (r: Result<(), RoutingError>)
        ensures
            r == self.spec_integrity(min_section_size as int, quorum),
    {
        if !self.has_valid_signatures() {
            return Err(RoutingError::FailedSignature);
        }
        let n_sigs = self.signatures.len();
        let enough = if self.content.src.is_client() {
            n_sigs == 1
        } else if let Authority::ManagedNode(_) = self.content.src {
            n_sigs == 1
        } else {
            let section_len = self.src_section.len();
            let members: usize = if section_len > min_section_size { section_len } else { min_section_size };
            assert(n_sigs as u128 * quorum.denominator as u128 <= u64::MAX as u128 * u32::MAX as u128)
                by (nonlinear_arith);
            assert(members as u128 * quorum.numerator as u128 <= u64::MAX as u128 * u32::MAX as u128)
                by (nonlinear_arith);
            let lhs: u128 = n_sigs as u128 * quorum.denominator as u128;
            let rhs: u128 = members as u128 * quorum.numerator as u128;
            lhs > rhs
        };
        if enough {
            Ok(())
        } else {
            Err(RoutingError::NotEnoughSignatures)
        }
    }
}

/// A message as it arrives from a directly connected peer.
pub enum Message {
    /// A routing message travelling hop by hop.
    Hop(HopMessage),
    /// A message meant for the receiving peer alone.
    Direct(Vec<u8>),
}

/// The unit sent between directly connected peers: a signed message, the route it travels,
/// the names of the peers that already relayed it, and the relaying peer's signature.
#[derive(Clone, Debug)]
pub struct HopMessage {
    pub content: SignedMessage,
    pub route: u8,
    pub sent_to: Vec<XorName>,
    pub signer: PublicKey,
}

impl HopMessage {
    /// Wraps `content` for the next hop, signed by `full_id`.
    pub fn new(content: SignedMessage, route: u8, sent_to: Vec<XorName>, full_id: &FullId) -> (r: HopMessage)
        ensures
            r.content == content,
            r.route == route,
            r.sent_to == sent_to,
            r.signer == full_id.public_id.signing_public_key,
    {
        HopMessage { content, route, sent_to, signer: full_id.public_id.signing_public_key }
    }

    /// Checks that the hop names `verification_key` as the key that signed it for the relay,
    /// and nothing inside. The signature bytes are not checked here.
    pub fn verify(&self, verification_key: &PublicKey) -> (r: Result<(), RoutingError>)
        ensures
            r is Ok <==> self.signer == *verification_key,
            r is Err ==> r == Err::<(), RoutingError>(RoutingError::FailedSignature),
    {
        if self.signer == *verification_key {
            Ok(())
        } else {
            Err(RoutingError::FailedSignature)
        }
    }
}

} // verus!
