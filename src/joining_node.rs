use vstd::prelude::*;
use crate::ack_manager::{pending_acks, AckManager, PendingAck, UnacknowledgedMessage};
use crate::action::{Action, Reply};
use crate::error::{InterfaceError, RoutingError};
use crate::id::{lemma_name_in_range_bounds, name_in_range, FullId, PublicId};
use crate::messages::{
    Message, Ack, Authority, HopMessage, MessageContent, MessageKey, NameInterval, Quorum, RoutingMessage,
    SignedMessage,
};
use crate::outbox::{Event, EventBox};
use crate::routing_message_filter::{
    classify, record, FilteringResult, IncomingEntry, OutgoingEntry, RoutingMessageFilter,
};
use crate::timer::{Scheduled, Timer};
use crate::types::{MessageId, PeerId, PublicKey, XorName};

verus! {

/// How long the network may take to run a candidate's resource proof.
pub const RESOURCE_PROOF_DURATION_SECS: u64 = 300;

/// Time after which a `Relocate` request counts as unanswered.
pub const RELOCATE_TIMEOUT_SECS: u64 = 60 + RESOURCE_PROOF_DURATION_SECS;

/// Time after which an unacknowledged message is sent again.
pub const ACK_TIMEOUT_SECS: u64 = 20;

/// What the state machine does after an event.
pub enum Transition {
    /// Remain in this state.
    Stay,
    /// Go back to bootstrapping with a new identity, whose address is to be drawn from
    /// `target_interval`, as a candidate for the section `our_section`.
    IntoBootstrapping { target_interval: NameInterval, our_section: Vec<PublicKey> },
    /// Stop the state machine.
    Terminate,
}

/// An event of the transport, with the bytes of a new message already decoded (`None` where
/// they did not decode).
pub enum TransportEvent {
    LostPeer(PeerId),
    NewMessage(PeerId, Option<Message>),
    Other,
}

/// A hop message to hand to the transport, for a directly connected peer.
pub struct Outgoing {
    pub peer_id: PeerId,
    pub hop: HopMessage,
    pub priority: u8,
}

/// What the bootstrapping state takes over from a node that was relocated.
pub struct BootstrapHandover {
    pub old_full_id: FullId,
    pub new_full_id: FullId,
    pub our_section: Vec<PublicKey>,
    pub min_section_size: usize,
    pub timer: Timer,
}

/// The state of a node that is connected to a proxy and waits for the network to assign it a
/// relocated address.
pub struct JoiningNode {
    ack_mgr: AckManager,
    our_peer_id: PeerId,
    full_id: FullId,
    min_section_size: usize,
    quorum: Quorum,
    proxy_peer_id: PeerId,
    proxy_public_id: PublicId,
    routing_msg_filter: RoutingMessageFilter,
    relocation_timer_token: u64,
    timer: Timer,
    sent: Vec<Outgoing>,
}

/// The transition that a routing message's content causes in a joining node.
pub open spec fn dispatch_transition(content: MessageContent) -> Transition {
    match content {
        MessageContent::RelocateResponse { target_interval, section, .. } =>
            Transition::IntoBootstrapping { target_interval, our_section: section },
        _ => Transition::Stay,
    }
}

/// The route after `route`; the last route stays the last.
pub open spec fn next_route(route: u8) -> u8 {
    if route == u8::MAX {
        u8::MAX
    } else {
        (route + 1) as u8
    }
}

/// The key of the acknowledgement of `msg`, sent back from its destination.
pub open spec fn ack_key_of(msg: RoutingMessage) -> MessageKey {
    MessageKey { src: msg.dst, dst: msg.src, id: msg.content.spec_message_id(), ack: true }
}

impl JoiningNode {
    pub closed spec fn spec_ack_mgr(&self) -> AckManager {
        self.ack_mgr
    }

    pub closed spec fn spec_our_peer_id(&self) -> PeerId {
        self.our_peer_id
    }

    pub closed spec fn spec_full_id(&self) -> FullId {
        self.full_id
    }

    pub closed spec fn spec_min_section_size(&self) -> usize {
        self.min_section_size
    }

    pub closed spec fn spec_quorum(&self) -> Quorum {
        self.quorum
    }

    pub closed spec fn spec_proxy_peer_id(&self) -> PeerId {
        self.proxy_peer_id
    }

    pub closed spec fn spec_proxy_public_id(&self) -> PublicId {
        self.proxy_public_id
    }

    pub closed spec fn spec_filter(&self) -> RoutingMessageFilter {
        self.routing_msg_filter
    }

    pub closed spec fn spec_relocation_timer_token(&self) -> u64 {
        self.relocation_timer_token
    }

    pub closed spec fn spec_timer(&self) -> Timer {
        self.timer
    }

    pub closed spec fn spec_sent(&self) -> Seq<Outgoing> {
        self.sent@
    }

    pub open spec fn wf(&self) -> bool {
        &&& self.spec_ack_mgr().wf()
        &&& self.spec_filter().wf()
    }

    /// The parts fixed for the node's life in this state.
    pub open spec fn same_setting(&self, other: &JoiningNode) -> bool {
        &&& self.spec_our_peer_id() == other.spec_our_peer_id()
        &&& self.spec_full_id() == other.spec_full_id()
        &&& self.spec_min_section_size() == other.spec_min_section_size()
        &&& self.spec_quorum() == other.spec_quorum()
        &&& self.spec_proxy_peer_id() == other.spec_proxy_peer_id()
        &&& self.spec_proxy_public_id() == other.spec_proxy_public_id()
        &&& self.spec_relocation_timer_token() == other.spec_relocation_timer_token()
    }

    /// Whether `auth` is this node: a client with this node's key.
    pub open spec fn spec_in_authority(&self, auth: Authority) -> bool {
        auth is Client && auth->client_key == self.spec_full_id().public_id.signing_public_key
    }

    /// Whether `msg` is addressed to this node itself, so that sending it is a no-op.
    pub open spec fn for_us(&self, msg: RoutingMessage) -> bool {
        msg.dst.spec_is_client() && self.spec_in_authority(msg.dst)
    }

    /// The outcome of sending `msg`: only this node's own client authority, through its proxy,
    /// can be the source.
    pub open spec fn send_check(&self, msg: RoutingMessage) -> Result<(), RoutingError> {
        if self.for_us(msg) {
            Ok(())
        } else if !(msg.src is Client) {
            Err(RoutingError::InvalidSource)
        } else if msg.src->proxy_node_name != self.spec_proxy_public_id().name {
            Err(RoutingError::ProxyConnectionNotFound)
        } else {
            Ok(())
        }
    }

    /// Whether a send of `msg` gets past the acknowledgement bookkeeping, with `pending` the
    /// entries awaiting acks: acks always do, other messages unless an entry already awaits
    /// their ack.
    pub open spec fn passes_ack_check(pending: Seq<PendingAck>, msg: RoutingMessage) -> bool {
        msg.content is Ack || !pending_acks(pending).contains(Ack { key: msg.spec_key() })
    }

    /// Whether `post` is what sending `msg` on `route` makes of this node, with `pre_pending`
    /// the entries awaiting acknowledgement before the send. The send goes on when the message
    /// may be sent and is not for this node, and no entry awaits its ack; then it is recorded
    /// in the outgoing filter, a hop to the proxy is queued unless the filter held it already,
    /// and a message other than an ack gets a pending entry with a new ack timer.
    pub open spec fn sent_as(&self, post: &JoiningNode, pre_pending: Seq<PendingAck>, msg: RoutingMessage, route: u8) -> bool {
        let key = msg.spec_key();
        let entry = OutgoingEntry { key, peer_id: self.spec_proxy_peer_id(), route };
        let proceeds = self.send_check(msg) is Ok && !self.for_us(msg) && JoiningNode::passes_ack_check(pre_pending, msg);
        let transmit = proceeds && !self.spec_filter().outgoing_view().contains(entry);
        let awaits = proceeds && !(msg.content is Ack);
        let token = self.spec_timer().next_token();
        &&& post.same_setting(self)
        &&& post.spec_filter().incoming_view() == self.spec_filter().incoming_view()
        &&& post.spec_filter().outgoing_view() == (if proceeds {
            record(self.spec_filter().outgoing_view(), entry)
        } else {
            self.spec_filter().outgoing_view()
        })
        &&& transmit ==> post.spec_sent().len() == self.spec_sent().len() + 1
            && post.spec_sent().drop_last() == self.spec_sent()
            && self.is_hop_to_proxy(post.spec_sent().last(), msg, route)
        &&& !transmit ==> post.spec_sent() == self.spec_sent()
        &&& awaits ==> {
            let last = post.spec_ack_mgr().pending().last();
            &&& post.spec_ack_mgr().pending().len() == pre_pending.len() + 1
            &&& post.spec_ack_mgr().pending().drop_last() == pre_pending
            &&& last.ack == Ack { key }
            &&& last.unacked.route == route
            &&& last.unacked.timer_token == token
            &&& last.unacked.routing_msg.spec_key() == key
            &&& post.spec_timer().requests()
                == self.spec_timer().requests().push(Scheduled { token, duration_secs: ACK_TIMEOUT_SECS })
            &&& post.spec_timer().next_token() == (if token == u64::MAX { 0 } else { (token + 1) as u64 })
        }
        &&& !awaits ==> post.spec_ack_mgr().pending() == pre_pending && post.spec_timer() == self.spec_timer()
    }

    /// The relocation request that entering this state sends.
    pub open spec fn relocate_request(full_id: FullId, proxy_public_id: PublicId, our_peer_id: PeerId, message_id: MessageId) -> RoutingMessage {
        RoutingMessage {
            src: Authority::Client {
                client_key: full_id.public_id.signing_public_key,
                proxy_node_name: proxy_public_id.name,
                peer_id: our_peer_id,
            },
            dst: Authority::Section(full_id.public_id.name),
            content: MessageContent::Relocate { public_id: full_id.public_id, message_id },
        }
    }

    /// Whether `o` is the hop message that carries `msg` to the proxy on `route`.
    pub open spec fn is_hop_to_proxy(&self, o: Outgoing, msg: RoutingMessage, route: u8) -> bool {
        &&& o.peer_id == self.spec_proxy_peer_id()
        &&& o.priority == msg.content.spec_priority()
        &&& o.hop.route == route
        &&& o.hop.sent_to@ == Seq::<XorName>::empty()
        &&& o.hop.signer == self.spec_full_id().public_id.signing_public_key
        &&& o.hop.content.content == msg
        &&& o.hop.content.src_section@ == Seq::<PublicKey>::empty()
        &&& o.hop.content.signatures@ == seq![self.spec_full_id().public_id.signing_public_key]
    }

    /// Whether this node is the authority `auth`.
    pub fn in_authority(&self, auth: &Authority) -> (r: bool)
        ensures
            r == self.spec_in_authority(*auth),
    {
        if let Authority::Client { client_key, .. } = auth {
            *client_key == self.full_id.public_id.signing_public_key
        } else {
            false
        }
    }

    /// Registers `msg` as awaiting acknowledgement on `route`, unless it is an ack itself.
    /// Returns whether the send should go on: not when an entry already awaits its ack.
    fn add_to_pending_acks(&mut self, msg: &RoutingMessage, route: u8) -> (r: bool)
        requires
            old(self).wf(),
        ensures
            final(self).wf(),
            final(self).same_setting(old(self)),
            r == JoiningNode::passes_ack_check(old(self).spec_ack_mgr().pending(), *msg),
            final(self).spec_filter() == old(self).spec_filter(),
            final(self).spec_sent() == old(self).spec_sent(),
            !r || msg.content is Ack ==> *final(self) == *old(self),
            r && !(msg.content is Ack) ==> {
                let token = old(self).spec_timer().next_token();
                let last = final(self).spec_ack_mgr().pending().last();
                &&& final(self).spec_ack_mgr().pending().len() == old(self).spec_ack_mgr().pending().len() + 1
                &&& final(self).spec_ack_mgr().pending().drop_last() == old(self).spec_ack_mgr().pending()
                &&& last.ack == Ack { key: msg.spec_key() }
                &&& last.unacked.route == route
                &&& last.unacked.timer_token == token
                &&& last.unacked.routing_msg.spec_key() == msg.spec_key()
                &&& final(self).spec_timer().requests()
                    == old(self).spec_timer().requests().push(Scheduled { token, duration_secs: ACK_TIMEOUT_SECS })
                &&& final(self).spec_timer().next_token() == (if token == u64::MAX { 0 } else { (token + 1) as u64 })
            },
    {
        if msg.content.is_ack() {
            return true;
        }
        let ack = Ack { key: msg.key() };
        if self.ack_mgr.is_pending(&ack) {
            return false;
        }
        let token = self.timer.schedule(ACK_TIMEOUT_SECS);
        let unacked_msg = UnacknowledgedMessage { routing_msg: msg.duplicate(), route, timer_token: token };
        let _ = self.ack_mgr.add_to_pending(ack, unacked_msg);
        proof {
            let p = self.ack_mgr.pending();
            assert(p.drop_last() =~= old(self).ack_mgr.pending());
        }
        true
    }

    /// Signs `routing_msg` and hands it to the proxy on `route`, unless it is for this node,
    /// an entry already awaits its acknowledgement, or it was already sent to the proxy on
    /// that route.
    fn send_routing_message_via_route(&mut self, routing_msg: RoutingMessage, route: u8) -> (r: Result<(), RoutingError>)
        requires
            old(self).wf(),
        ensures
            final(self).wf(),
            r == old(self).send_check(routing_msg),
            r is Err || old(self).for_us(routing_msg) ==> *final(self) == *old(self),
            old(self).sent_as(final(self), old(self).spec_ack_mgr().pending(), routing_msg, route),
    {
        if routing_msg.dst.is_client() && self.in_authority(&routing_msg.dst) {
            return Ok(());
        }
        let proxy_peer_id = match routing_msg.src {
            Authority::Client { proxy_node_name, .. } => {
                if self.proxy_public_id.name != proxy_node_name {
                    return Err(RoutingError::ProxyConnectionNotFound);
                }
                self.proxy_peer_id
            },
            _ => {
                return Err(RoutingError::InvalidSource);
            },
        };
        let signed_msg = SignedMessage::new(routing_msg, &self.full_id, Vec::new());
        if self.add_to_pending_acks(signed_msg.routing_message(), route)
            && !self.routing_msg_filter.filter_outgoing(signed_msg.routing_message(), &proxy_peer_id, route) {
            let priority = signed_msg.priority();
            let hop = HopMessage::new(signed_msg, route, Vec::new(), &self.full_id);
            let ghost before = self.sent@;
            self.sent.push(Outgoing { peer_id: proxy_peer_id, hop, priority });
            assert(self.sent@.drop_last() =~= before);
        }
        Ok(())
    }

    /// Acknowledges `msg` to its sender on `route`, unless it is an acknowledgement itself.
    fn send_ack(&mut self, msg: &RoutingMessage, route: u8)
        requires
            old(self).wf(),
        ensures
            final(self).wf(),
            msg.content is Ack ==> *final(self) == *old(self),
            !(msg.content is Ack) ==> old(self).sent_as(
                final(self),
                old(self).spec_ack_mgr().pending(),
                RoutingMessage::spec_ack_from(*msg, msg.dst),
                route,
            ),
    {
        if msg.content.is_ack() {
            return;
        }
        let ack_msg = RoutingMessage::ack_from(msg, msg.dst);
        let _ = self.send_routing_message_via_route(ack_msg, route);
    }

    /// Sends the request for a relocated address to the section of this node's current one.
    fn relocate(&mut self, message_id: MessageId) -> (r: Result<(), RoutingError>)
        requires
            old(self).wf(),
        ensures
            final(self).wf(),
            r is Ok,
            old(self).sent_as(
                final(self),
                old(self).spec_ack_mgr().pending(),
                JoiningNode::relocate_request(
                    old(self).spec_full_id(),
                    old(self).spec_proxy_public_id(),
                    old(self).spec_our_peer_id(),
                    message_id,
                ),
                0,
            ),
    {
        let request_content = MessageContent::Relocate { public_id: self.full_id.public_id(), message_id };
        let src = Authority::Client {
            client_key: self.full_id.public_id().signing_public_key(),
            proxy_node_name: self.proxy_public_id.name(),
            peer_id: self.our_peer_id,
        };
        let dst = Authority::Section(self.full_id.public_id().name());
        self.send_routing_message_via_route(RoutingMessage { src, dst, content: request_content }, 0)
    }

    /// Enters this state from bootstrapping: schedules the relocation timeout on `timer` and
    /// sends the `Relocate` request, identified by `message_id`, through the proxy. The result
    /// is `None` where the request cannot be sent; a request from this node's own client
    /// authority through its proxy always can.
    pub fn from_bootstrapping(
        our_peer_id: PeerId,
        full_id: FullId,
        min_section_size: usize,
        quorum: Quorum,
        proxy_peer_id: PeerId,
        proxy_public_id: PublicId,
        timer: Timer,
        message_id: MessageId,
    ) -> (r: Option<JoiningNode>)
        ensures
            r is Some,
            ({
                let node = r->0;
                let msg = JoiningNode::relocate_request(full_id, proxy_public_id, our_peer_id, message_id);
                let ack_token = if timer.next_token() == u64::MAX { 0 } else { (timer.next_token() + 1) as u64 };
                &&& node.wf()
                &&& node.spec_our_peer_id() == our_peer_id
                &&& node.spec_full_id() == full_id
                &&& node.spec_min_section_size() == min_section_size
                &&& node.spec_quorum() == quorum
                &&& node.spec_proxy_peer_id() == proxy_peer_id
                &&& node.spec_proxy_public_id() == proxy_public_id
                &&& node.spec_relocation_timer_token() == timer.next_token()
                &&& node.spec_sent().len() == 1
                &&& node.is_hop_to_proxy(node.spec_sent()[0], msg, 0)
                &&& node.spec_ack_mgr().pending().len() == 1
                &&& node.spec_ack_mgr().pending()[0].ack == Ack { key: msg.spec_key() }
                &&& node.spec_ack_mgr().pending()[0].unacked.route == 0
                &&& node.spec_ack_mgr().pending()[0].unacked.timer_token == ack_token
                &&& node.spec_timer().requests() == timer.requests()
                    .push(Scheduled { token: timer.next_token(), duration_secs: RELOCATE_TIMEOUT_SECS })
                    .push(Scheduled { token: ack_token, duration_secs: ACK_TIMEOUT_SECS })
                &&& node.spec_filter().incoming_view() == Seq::<IncomingEntry>::empty()
            }),
    {
        let mut timer = timer;
        let relocation_timer_token = timer.schedule(RELOCATE_TIMEOUT_SECS);
        let mut joining_node = JoiningNode {
            ack_mgr: AckManager::new(),
            our_peer_id,
            full_id,
            min_section_size,
            quorum,
            proxy_peer_id,
            proxy_public_id,
            routing_msg_filter: RoutingMessageFilter::new(),
            relocation_timer_token,
            timer,
            sent: Vec::new(),
        };
        match joining_node.relocate(message_id) {
            Ok(()) => {
                assert(joining_node.sent@.drop_last() =~= Seq::<Outgoing>::empty());
                assert(pending_acks(Seq::<PendingAck>::empty()) =~= Seq::<Ack>::empty());
                Some(joining_node)
            },
            Err(_) => None,
        }
    }

    /// Takes note of an acknowledgement.
    fn handle_ack_response(&mut self, ack: Ack)
        requires
            old(self).wf(),
        ensures
            final(self).wf(),
            final(self).same_setting(old(self)),
            final(self).spec_filter() == old(self).spec_filter(),
            final(self).spec_sent() == old(self).spec_sent(),
            final(self).spec_timer() == old(self).spec_timer(),
            final(self).spec_ack_mgr().pending() == crate::ack_manager::pending_after_ack(old(self).spec_ack_mgr().pending(), ack),
            !pending_acks(old(self).spec_ack_mgr().pending()).contains(ack) ==> *final(self) == *old(self),
    {
        self.ack_mgr.receive(ack);
    }

    /// The network's answer to the relocation request: go back to bootstrapping with an
    /// address from `target_interval`, as a candidate for `section`.
    fn handle_relocate_response(&self, target_interval: NameInterval, section: Vec<PublicKey>) -> (r: Transition)
        ensures
            r == (Transition::IntoBootstrapping { target_interval, our_section: section }),
    {
        Transition::IntoBootstrapping { target_interval, our_section: section }
    }

    /// Acts on a routing message addressed to this node: acks and the relocation response are
    /// taken; every other content is not for a node that has not joined, and is dropped.
    fn dispatch_routing_message(&mut self, routing_msg: RoutingMessage) -> (r: Transition)
        requires
            old(self).wf(),
        ensures
            final(self).wf(),
            final(self).same_setting(old(self)),
            final(self).spec_filter() == old(self).spec_filter(),
            final(self).spec_sent() == old(self).spec_sent(),
            final(self).spec_timer() == old(self).spec_timer(),
            r == dispatch_transition(routing_msg.content),
            routing_msg.content is Ack ==> {
                let ack = routing_msg.content->Ack_0;
                &&& final(self).spec_ack_mgr().pending() == crate::ack_manager::pending_after_ack(old(self).spec_ack_mgr().pending(), ack)
                &&& !pending_acks(old(self).spec_ack_mgr().pending()).contains(ack) ==> *final(self) == *old(self)
            },
            !(routing_msg.content is Ack) ==> *final(self) == *old(self),
    {
        match routing_msg.content {
            MessageContent::Ack(ack, _) => {
                self.handle_ack_response(ack);
                Transition::Stay
            },
            MessageContent::RelocateResponse { target_interval, section, .. } => {
                self.handle_relocate_response(target_interval, section)
            },
            _ => Transition::Stay,
        }
    }

    /// Whether the hop message `hop_msg` from `peer_id` gets past the checks made before its
    /// content is looked at: it comes from the proxy, names the proxy's key as its relay, and
    /// lists enough entitled signers.
    pub open spec fn hop_accepted(&self, hop_msg: HopMessage, peer_id: PeerId) -> bool {
        &&& peer_id == self.spec_proxy_peer_id()
        &&& hop_msg.signer == self.spec_proxy_public_id().signing_public_key
        &&& hop_msg.content.spec_integrity(self.spec_min_section_size() as int, self.spec_quorum()) is Ok
    }

    /// The entry that records the acknowledgement of `msg` as sent to the proxy.
    pub open spec fn ack_entry(&self, msg: RoutingMessage) -> OutgoingEntry {
        OutgoingEntry { key: ack_key_of(msg), peer_id: self.spec_proxy_peer_id(), route: 0 }
    }

    /// Whether handling `msg` sends its acknowledgement on: it is addressed to this node, is
    /// no ack itself, and its ack can go through the proxy.
    pub open spec fn acks(&self, msg: RoutingMessage) -> bool {
        let ack_msg = RoutingMessage::spec_ack_from(msg, msg.dst);
        &&& self.spec_in_authority(msg.dst)
        &&& !(msg.content is Ack)
        &&& self.send_check(ack_msg) is Ok
        &&& !self.for_us(ack_msg)
    }

    /// Whether handling `msg` queues a hop with its acknowledgement: it is acked and the ack
    /// was not sent to the proxy before.
    pub open spec fn ack_transmitted(&self, msg: RoutingMessage) -> bool {
        self.acks(msg) && !self.spec_filter().outgoing_view().contains(self.ack_entry(msg))
    }

    /// Handles a hop message from `peer_id`. Only the proxy is trusted, and only where the hop
    /// names the proxy's key as its relay; then the signers listed inside must reach quorum. A message to this node is
    /// acknowledged, and handled if it was not seen before on its route.
    pub fn handle_hop_message(&mut self, hop_msg: HopMessage, peer_id: PeerId) -> (r: Result<Transition, RoutingError>)
        requires
            old(self).wf(),
        ensures
            final(self).wf(),
            final(self).same_setting(old(self)),
            peer_id != old(self).spec_proxy_peer_id() ==> r == Err::<Transition, RoutingError>(RoutingError::UnknownConnection(peer_id)),
            peer_id == old(self).spec_proxy_peer_id() && hop_msg.signer != old(self).spec_proxy_public_id().signing_public_key
                ==> r == Err::<Transition, RoutingError>(RoutingError::FailedSignature),
            peer_id == old(self).spec_proxy_peer_id() && hop_msg.signer == old(self).spec_proxy_public_id().signing_public_key
                && hop_msg.content.spec_integrity(old(self).spec_min_section_size() as int, old(self).spec_quorum()) is Err
                ==> r == Err::<Transition, RoutingError>(
                    hop_msg.content.spec_integrity(old(self).spec_min_section_size() as int, old(self).spec_quorum())->Err_0,
                ),
            !old(self).hop_accepted(hop_msg, peer_id) ==> *final(self) == *old(self),
            old(self).hop_accepted(hop_msg, peer_id) ==> {
                let msg = hop_msg.content.content;
                let key = msg.spec_key();
                let in_auth = old(self).spec_in_authority(msg.dst);
                let verdict = classify(old(self).spec_filter().incoming_view(), key, hop_msg.route);
                &&& final(self).spec_filter().incoming_view()
                    == record(old(self).spec_filter().incoming_view(), IncomingEntry { key, route: hop_msg.route })
                &&& r == if verdict != FilteringResult::NewMessage {
                    Err(RoutingError::FilterCheckFailed)
                } else if !in_auth {
                    Ok(Transition::Stay)
                } else {
                    Ok(dispatch_transition(msg.content))
                }
                &&& old(self).ack_transmitted(msg) ==> final(self).spec_sent().len() == old(self).spec_sent().len() + 1
                    && final(self).spec_sent().drop_last() == old(self).spec_sent()
                    && old(self).is_hop_to_proxy(final(self).spec_sent().last(), RoutingMessage::spec_ack_from(msg, msg.dst), 0)
                &&& !old(self).ack_transmitted(msg) ==> final(self).spec_sent() == old(self).spec_sent()
                &&& final(self).spec_filter().outgoing_view() == (if old(self).acks(msg) {
                    record(old(self).spec_filter().outgoing_view(), old(self).ack_entry(msg))
                } else {
                    old(self).spec_filter().outgoing_view()
                })
                &&& final(self).spec_timer() == old(self).spec_timer()
                &&& verdict == FilteringResult::NewMessage && in_auth && msg.content is Ack
                    ==> final(self).spec_ack_mgr().pending()
                        == crate::ack_manager::pending_after_ack(old(self).spec_ack_mgr().pending(), msg.content->Ack_0)
                &&& !(verdict == FilteringResult::NewMessage && in_auth && msg.content is Ack)
                    ==> final(self).spec_ack_mgr().pending() == old(self).spec_ack_mgr().pending()
            },
    {
        if self.proxy_peer_id == peer_id {
            hop_msg.verify(&self.proxy_public_id.signing_public_key())?;
        } else {
            return Err(RoutingError::UnknownConnection(peer_id));
        }
        let HopMessage { content: signed_msg, route, .. } = hop_msg;
        signed_msg.check_integrity(self.min_section_size, self.quorum)?;
        let SignedMessage { content: routing_msg, .. } = signed_msg;
        let in_authority = self.in_authority(&routing_msg.dst);
        assert(RoutingMessage::spec_ack_from(routing_msg, routing_msg.dst).spec_key() == ack_key_of(routing_msg));
        if in_authority {
            self.send_ack(&routing_msg, 0);
        }
        match self.routing_msg_filter.filter_incoming(&routing_msg, route) {
            FilteringResult::KnownMessage | FilteringResult::KnownMessageAndRoute => {
                return Err(RoutingError::FilterCheckFailed);
            },
            FilteringResult::NewMessage => {},
        }
        if !in_authority {
            return Ok(Transition::Stay);
        }
        Ok(self.dispatch_routing_message(routing_msg))
    }

    /// The transition that a message from `peer_id` causes.
    pub open spec fn new_message_transition(&self, peer_id: PeerId, message: Option<Message>) -> Transition {
        match message {
            Some(Message::Hop(hop)) => {
                let msg = hop.content.content;
                if self.hop_accepted(hop, peer_id)
                    && classify(self.spec_filter().incoming_view(), msg.spec_key(), hop.route) == FilteringResult::NewMessage
                    && self.spec_in_authority(msg.dst) {
                    dispatch_transition(msg.content)
                } else {
                    Transition::Stay
                }
            },
            _ => Transition::Stay,
        }
    }

    /// Whether a message from `peer_id` leaves the pending acknowledgements and the timer as
    /// they are: all but a new ack addressed to this node, from the proxy, do.
    pub open spec fn new_message_keeps_acks(&self, peer_id: PeerId, message: Option<Message>) -> bool {
        match message {
            Some(Message::Hop(hop)) => {
                let msg = hop.content.content;
                !(self.hop_accepted(hop, peer_id)
                    && classify(self.spec_filter().incoming_view(), msg.spec_key(), hop.route) == FilteringResult::NewMessage
                    && self.spec_in_authority(msg.dst)
                    && msg.content is Ack)
            },
            _ => true,
        }
    }

    /// Handles a message from `peer_id`, as decoded from the bytes that arrived (`None` where
    /// they did not decode). Problems with the message are dropped; only a hop message can
    /// cause a transition.
    fn handle_new_message(&mut self, peer_id: PeerId, message: Option<Message>) -> (r: Transition)
        requires
            old(self).wf(),
        ensures
            final(self).wf(),
            final(self).same_setting(old(self)),
            r == old(self).new_message_transition(peer_id, message),
            !(message matches Some(Message::Hop(_))) ==> *final(self) == *old(self),
            old(self).new_message_keeps_acks(peer_id, message) ==> {
                &&& final(self).spec_ack_mgr().pending() == old(self).spec_ack_mgr().pending()
                &&& final(self).spec_timer() == old(self).spec_timer()
            },
            message matches Some(Message::Hop(hop)) ==> {
                &&& !old(self).hop_accepted(hop, peer_id) ==> *final(self) == *old(self)
                &&& old(self).hop_accepted(hop, peer_id) && !old(self).ack_transmitted(hop.content.content)
                    ==> final(self).spec_sent() == old(self).spec_sent()
            },
    {
        let result = match message {
            Some(Message::Hop(hop_msg)) => self.handle_hop_message(hop_msg, peer_id),
            Some(Message::Direct(_)) => Ok(Transition::Stay),
            None => Err(RoutingError::SerialisationError),
        };
        match result {
            Ok(transition) => transition,
            Err(_) => Transition::Stay,
        }
    }

    /// Whether `post` is what the firing of acknowledgement timer `token` makes of this node.
    /// Nothing changes unless an entry has that timer. Then the first such entry is taken
    /// out; its message is sent again on the next route, as `sent_as` describes, unless the
    /// routes are used up (the next one reaches the minimum section size, or the last
    /// route), in which case the message is dropped.
    pub open spec fn timed_out_as(&self, post: &JoiningNode, token: u64) -> bool {
        let pending = self.spec_ack_mgr().pending();
        if forall|j: int| 0 <= j < pending.len() ==> (#[trigger] pending[j]).unacked.timer_token != token {
            *post == *self
        } else {
            exists|i: int| #![trigger pending[i]] {
                &&& 0 <= i < pending.len()
                &&& pending[i].unacked.timer_token == token
                &&& forall|j: int| 0 <= j < i ==> (#[trigger] pending[j]).unacked.timer_token != token
                &&& ({
                    let route = next_route(pending[i].unacked.route);
                    if route as int >= self.spec_min_section_size() || route == u8::MAX {
                        &&& post.same_setting(self)
                        &&& post.spec_filter() == self.spec_filter()
                        &&& post.spec_sent() == self.spec_sent()
                        &&& post.spec_timer() == self.spec_timer()
                        &&& post.spec_ack_mgr().pending() == pending.remove(i)
                    } else {
                        self.sent_as(post, pending.remove(i), pending[i].unacked.routing_msg, route)
                    }
                })
            }
        }
    }

    /// Sends again the message whose acknowledgement timer `token` fired, on the next route,
    /// or gives it up once the routes are used up.
    fn resend_unacknowledged_timed_out_msgs(&mut self, token: u64)
        requires
            old(self).wf(),
        ensures
            final(self).wf(),
            final(self).same_setting(old(self)),
            old(self).timed_out_as(final(self), token),
    {
        let ghost pending = self.ack_mgr.pending();
        let found = self.ack_mgr.find_timed_out(token);
        if let Some((unacked_msg, _ack)) = found {
            let ghost i = choose|i: int| {
                &&& 0 <= i < pending.len()
                &&& (#[trigger] pending[i]).unacked.timer_token == token
                &&& forall|j: int| 0 <= j < i ==> (#[trigger] pending[j]).unacked.timer_token != token
                &&& self.ack_mgr.pending() == pending.remove(i)
                &&& unacked_msg.routing_msg == pending[i].unacked.routing_msg
                &&& unacked_msg.route == next_route(pending[i].unacked.route)
            };
            assert(pending[i].unacked.timer_token == token);
            if unacked_msg.route as usize >= self.min_section_size || unacked_msg.route == u8::MAX {
                return;
            }
            let _ = self.send_routing_message_via_route(unacked_msg.routing_msg, unacked_msg.route);
        }
    }

    /// A timer fired: the relocation timer ends this state with a restart, any other one
    /// is an acknowledgement timer.
    fn handle_timeout(&mut self, token: u64, outbox: &mut EventBox) -> (r: Transition)
        requires
            old(self).wf(),
        ensures
            final(self).wf(),
            final(self).same_setting(old(self)),
            (r is Terminate) == (token == old(self).spec_relocation_timer_token()),
            !(r is IntoBootstrapping),
            token == old(self).spec_relocation_timer_token() ==> final(outbox)@ == old(outbox)@.push(Event::RestartRequired)
                && *final(self) == *old(self),
            token != old(self).spec_relocation_timer_token() ==> final(outbox)@ == old(outbox)@
                && old(self).timed_out_as(final(self), token),
    {
        if self.relocation_timer_token == token {
            outbox.send_event(Event::RestartRequired);
            return Transition::Terminate;
        }
        self.resend_unacknowledged_timed_out_msgs(token);
        Transition::Stay
    }

    /// A transport connection was lost: losing the proxy ends this state.
    fn handle_lost_peer(&mut self, peer_id: PeerId, outbox: &mut EventBox) -> (r: Transition)
        ensures
            *final(self) == *old(self),
            (r is Terminate) == (peer_id != old(self).spec_our_peer_id() && peer_id == old(self).spec_proxy_peer_id()),
            !(r is Terminate) ==> r is Stay && final(outbox)@ == old(outbox)@,
            r is Terminate ==> final(outbox)@ == old(outbox)@.push(Event::Terminate),
    {
        if peer_id == self.our_peer_id {
            return Transition::Stay;
        }
        if self.proxy_peer_id == peer_id {
            outbox.send_event(Event::Terminate);
            Transition::Terminate
        } else {
            Transition::Stay
        }
    }

    /// Handles an action. Sends are refused, as this node has not joined; the name query is
    /// answered; a timeout goes to the timeout logic; a resource proof result is not for this
    /// state; termination ends it.
    pub fn handle_action(&mut self, action: Action, outbox: &mut EventBox) -> (r: (Transition, Option<Reply>))
        requires
            old(self).wf(),
        ensures
            final(self).wf(),
            final(self).same_setting(old(self)),
            !(action is Timeout) ==> *final(self) == *old(self) && final(outbox)@ == old(outbox)@,
            action is NodeSendMessage || action is ClientSendRequest
                ==> r == (Transition::Stay, Some(Reply::Sent(Err(InterfaceError::InvalidState)))),
            action is Name ==> r == (Transition::Stay, Some(Reply::Name(old(self).spec_full_id().public_id.name))),
            action is ResourceProofResult ==> r == (Transition::Stay, None::<Reply>),
            action is Terminate ==> r == (Transition::Terminate, None::<Reply>),
            action is Timeout ==> {
                let token = action->Timeout_0;
                &&& token == old(self).spec_relocation_timer_token() ==> r == (Transition::Terminate, None::<Reply>)
                    && final(outbox)@ == old(outbox)@.push(Event::RestartRequired)
                &&& token != old(self).spec_relocation_timer_token() ==> r == (Transition::Stay, None::<Reply>)
                    && final(outbox)@ == old(outbox)@
                    && old(self).timed_out_as(final(self), token)
            },
    {
        match action {
            Action::ClientSendRequest { .. } | Action::NodeSendMessage { .. } => {
                (Transition::Stay, Some(Reply::Sent(Err(InterfaceError::InvalidState))))
            },
            Action::Name => (Transition::Stay, Some(Reply::Name(self.full_id.public_id.name))),
            Action::Timeout(token) => {
                if let Transition::Terminate = self.handle_timeout(token, outbox) {
                    return (Transition::Terminate, None);
                }
                (Transition::Stay, None)
            },
            Action::ResourceProofResult(..) => (Transition::Stay, None),
            Action::Terminate => (Transition::Terminate, None),
        }
    }

    /// Handles an event of the transport.
    pub fn handle_crust_event(&mut self, crust_event: TransportEvent, outbox: &mut EventBox) -> (r: Transition)
        requires
            old(self).wf(),
        ensures
            final(self).wf(),
            final(self).same_setting(old(self)),
            crust_event is LostPeer ==> {
                let peer_id = crust_event->LostPeer_0;
                let lost_proxy = peer_id != old(self).spec_our_peer_id() && peer_id == old(self).spec_proxy_peer_id();
                &&& *final(self) == *old(self)
                &&& lost_proxy ==> r is Terminate && final(outbox)@ == old(outbox)@.push(Event::Terminate)
                &&& !lost_proxy ==> r is Stay && final(outbox)@ == old(outbox)@
            },
            crust_event is NewMessage ==> {
                let peer_id = crust_event->NewMessage_0;
                let message = crust_event->NewMessage_1;
                &&& r == old(self).new_message_transition(peer_id, message)
                &&& final(outbox)@ == old(outbox)@
                &&& !(message matches Some(Message::Hop(_))) ==> *final(self) == *old(self)
                &&& (message matches Some(Message::Hop(hop)) ==> (!old(self).hop_accepted(hop, peer_id)
                    ==> *final(self) == *old(self)))
                &&& old(self).new_message_keeps_acks(peer_id, message) ==> {
                    &&& final(self).spec_ack_mgr().pending() == old(self).spec_ack_mgr().pending()
                    &&& final(self).spec_timer() == old(self).spec_timer()
                }
            },
            crust_event is Other ==> r is Stay && *final(self) == *old(self) && final(outbox)@ == old(outbox)@,
    {
        match crust_event {
            TransportEvent::LostPeer(peer_id) => self.handle_lost_peer(peer_id, outbox),
            TransportEvent::NewMessage(peer_id, message) => self.handle_new_message(peer_id, message),
            TransportEvent::Other => Transition::Stay,
        }
    }

    /// Leaves this state for bootstrapping with `new_full_id`, as a candidate for `our_section`.
    pub fn into_bootstrapping(self, new_full_id: FullId, our_section: Vec<PublicKey>) -> (r: BootstrapHandover)
        ensures
            r.old_full_id == self.spec_full_id(),
            r.new_full_id == new_full_id,
            r.our_section == our_section,
            r.min_section_size == self.spec_min_section_size(),
            r.timer == self.spec_timer(),
    {
        BootstrapHandover {
            old_full_id: self.full_id,
            new_full_id,
            our_section,
            min_section_size: self.min_section_size,
            timer: self.timer,
        }
    }

    /// Sends again every message that waits for acknowledgement; returns whether there was any.
    pub fn resend_unacknowledged(&mut self) -> (r: bool)
        requires
            old(self).wf(),
        ensures
            final(self).wf(),
            final(self).same_setting(old(self)),
            r == (old(self).spec_ack_mgr().pending().len() > 0),
            !r ==> *final(self) == *old(self),
    {
        let timer_tokens = self.ack_mgr.timer_tokens();
        let ghost start = *self;
        let mut i: usize = 0;
        while i < timer_tokens.len()
            invariant
                self.wf(),
                self.same_setting(&start),
                i <= timer_tokens@.len(),
                timer_tokens@.len() == start.spec_ack_mgr().pending().len(),
                i == 0 ==> *self == start,
            decreases timer_tokens@.len() - i,
        {
            self.resend_unacknowledged_timed_out_msgs(timer_tokens[i]);
            i += 1;
        }
        timer_tokens.len() > 0
    }

    /// Whether any message waits for acknowledgement.
    pub fn has_unacknowledged(&self) -> (r: bool)
        ensures
            r == (self.spec_ack_mgr().pending().len() > 0),
    {
        self.ack_mgr.has_pending()
    }

    pub fn ack_mgr(&self) -> (r: &AckManager)
        ensures
            *r == self.spec_ack_mgr(),
    {
        &self.ack_mgr
    }

    pub fn full_id(&self) -> (r: FullId)
        ensures
            r == self.spec_full_id(),
    {
        self.full_id
    }

    /// This node's current address.
    pub fn name(&self) -> (r: XorName)
        ensures
            r == self.spec_full_id().public_id.name,
    {
        self.full_id.public_id.name
    }

    pub fn min_section_size(&self) -> (r: usize)
        ensures
            r == self.spec_min_section_size(),
    {
        self.min_section_size
    }

    pub fn relocation_timer_token(&self) -> (r: u64)
        ensures
            r == self.spec_relocation_timer_token(),
    {
        self.relocation_timer_token
    }

    /// Hands over the hop messages queued for the transport, in order.
    pub fn take_outgoing(&mut self) -> (r: Vec<Outgoing>)
        ensures
            r@ == old(self).spec_sent(),
            final(self).spec_sent() == Seq::<Outgoing>::empty(),
            final(self).wf() == old(self).wf(),
            final(self).same_setting(old(self)),
    {
        let mut taken: Vec<Outgoing> = Vec::new();
        std::mem::swap(&mut taken, &mut self.sent);
        taken
    }

    /// Hands over the timer requests made since the last call.
    pub fn take_scheduled(&mut self) -> (r: Vec<Scheduled>)
        ensures
            r@ == old(self).spec_timer().requests(),
            final(self).spec_timer().requests() == Seq::<Scheduled>::empty(),
            final(self).wf() == old(self).wf(),
            final(self).same_setting(old(self)),
    {
        self.timer.take_scheduled()
    }
}

/// A relocation response sends the node back to bootstrapping with the response's interval,
/// and the address that any draw picks from that interval lies inside it.
pub proof fn lemma_relocation_lands_in_interval(content: MessageContent, draw: u64)
    requires
        content is RelocateResponse,
        content->target_interval.0.0 <= content->target_interval.1.0,
    ensures
        dispatch_transition(content) is IntoBootstrapping,
        dispatch_transition(content)->target_interval == content->target_interval,
        ({
            let lo = content->target_interval.0.0;
            let hi = content->target_interval.1.0;
            lo <= name_in_range(lo, hi, draw) <= hi
        }),
{
    lemma_name_in_range_bounds(content->target_interval.0.0, content->target_interval.1.0, draw);
}

} // verus!
