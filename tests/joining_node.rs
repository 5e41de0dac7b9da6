use routing::ack_manager::{AckManager, UnacknowledgedMessage};
use routing::action::{Action, Reply};
use routing::error::{InterfaceError, RoutingError};
use routing::id::{FullId, PublicId};
use routing::messages::MessageKey;
use routing::joining_node::{JoiningNode, Transition, TransportEvent, RELOCATE_TIMEOUT_SECS};
use routing::messages::{
    Ack, Authority, HopMessage, Message, MessageContent, NameInterval, Quorum, RoutingMessage,
    SignedMessage,
};
use routing::outbox::{Event, EventBox};
use routing::routing_message_filter::{FilteringResult, RoutingMessageFilter};
use routing::timer::Timer;
use routing::types::{MessageId, PeerId, PublicKey, XorName};

const OUR_PEER: PeerId = PeerId(1);
const PROXY_PEER: PeerId = PeerId(2);

fn our_id() -> FullId {
    FullId::new(PublicKey(1), XorName(100))
}

fn proxy_id() -> PublicId {
    PublicId { signing_public_key: PublicKey(2), name: XorName(200) }
}

fn quorum() -> Quorum {
    Quorum { numerator: 1, denominator: 2 }
}

fn new_node() -> JoiningNode {
    JoiningNode::from_bootstrapping(OUR_PEER, our_id(), 3, quorum(), PROXY_PEER, proxy_id(), Timer::new(), MessageId(7))
        .expect("relocation request sent")
}

fn us() -> Authority {
    Authority::Client { client_key: PublicKey(1), proxy_node_name: XorName(200), peer_id: OUR_PEER }
}

fn section_msg(content: MessageContent, signers: Vec<PublicKey>) -> HopMessage {
    let routing_msg = RoutingMessage { src: Authority::Section(XorName(100)), dst: us(), content };
    let signed = SignedMessage {
        content: routing_msg,
        src_section: vec![PublicKey(10), PublicKey(11), PublicKey(12)],
        signatures: signers,
    };
    HopMessage { content: signed, route: 0, sent_to: vec![], signer: PublicKey(2) }
}

fn quorate() -> Vec<PublicKey> {
    vec![PublicKey(10), PublicKey(11)]
}

fn relocate_response(lo: u64, hi: u64) -> HopMessage {
    section_msg(
        MessageContent::RelocateResponse {
            target_interval: NameInterval(XorName(lo), XorName(hi)),
            section: vec![PublicKey(20), PublicKey(21)],
            message_id: MessageId(30),
        },
        quorate(),
    )
}

fn section_update() -> HopMessage {
    section_msg(MessageContent::SectionUpdate { members: vec![PublicKey(10)], message_id: MessageId(31) }, quorate())
}

#[test]
fn entering_sends_relocate_request_to_proxy() {
    let mut node = new_node();
    assert_eq!(node.relocation_timer_token(), 0);
    assert!(node.has_unacknowledged());
    let sent = node.take_outgoing();
    assert_eq!(sent.len(), 1);
    assert_eq!(sent[0].peer_id, PROXY_PEER);
    assert_eq!(sent[0].hop.route, 0);
    assert_eq!(sent[0].hop.signer, PublicKey(1));
    let msg = &sent[0].hop.content.content;
    assert_eq!(msg.src, us());
    assert_eq!(msg.dst, Authority::Section(XorName(100)));
    assert!(matches!(msg.content, MessageContent::Relocate { message_id: MessageId(7), .. }));
    let scheduled = node.take_scheduled();
    assert_eq!(scheduled.len(), 2);
    assert_eq!(scheduled[0].token, 0);
    assert_eq!(scheduled[0].duration_secs, RELOCATE_TIMEOUT_SECS);
    assert_eq!(RELOCATE_TIMEOUT_SECS, 360);
    assert_eq!(scheduled[1].token, 1);
    assert_eq!(scheduled[1].duration_secs, 20);
}

#[test]
fn hop_from_unknown_peer_is_rejected() {
    let mut node = new_node();
    let _ = node.take_outgoing();
    let result = node.handle_hop_message(relocate_response(0, 10), PeerId(9));
    assert!(matches!(result, Err(RoutingError::UnknownConnection(PeerId(9)))));
    assert!(node.take_outgoing().is_empty());
    // The state is untouched: the same message from the proxy is still new.
    let result = node.handle_hop_message(relocate_response(0, 10), PROXY_PEER);
    assert!(matches!(result, Ok(Transition::IntoBootstrapping { .. })));
}

#[test]
fn hop_with_wrong_relay_signature_is_rejected() {
    let mut node = new_node();
    let mut hop = section_update();
    hop.signer = PublicKey(99);
    assert!(matches!(node.handle_hop_message(hop, PROXY_PEER), Err(RoutingError::FailedSignature)));
}

#[test]
fn replayed_message_is_filtered_without_second_ack() {
    let mut node = new_node();
    let _ = node.take_outgoing();
    let first = node.handle_hop_message(section_update(), PROXY_PEER);
    assert!(matches!(first, Ok(Transition::Stay)));
    let acks = node.take_outgoing();
    assert_eq!(acks.len(), 1);
    assert!(matches!(acks[0].hop.content.content.content, MessageContent::Ack(..)));
    let second = node.handle_hop_message(section_update(), PROXY_PEER);
    assert!(matches!(second, Err(RoutingError::FilterCheckFailed)));
    assert!(node.take_outgoing().is_empty());
}

#[test]
fn ack_received_twice_is_noop() {
    let mut mgr = AckManager::new();
    let msg = RoutingMessage { src: us(), dst: Authority::Section(XorName(5)), content: MessageContent::NodeApproval { message_id: MessageId(3) } };
    let ack = Ack { key: msg.key() };
    let unacked = UnacknowledgedMessage { routing_msg: msg, route: 0, timer_token: 4 };
    assert!(mgr.add_to_pending(ack, unacked).is_none());
    assert!(mgr.has_pending());
    mgr.receive(ack);
    assert!(!mgr.has_pending());
    assert!(!mgr.is_pending(&ack));
    mgr.receive(ack);
    assert!(!mgr.has_pending());
    assert!(!mgr.is_pending(&ack));
    assert!(mgr.find_timed_out(4).is_none());
}

#[test]
fn ack_of_relocate_request_clears_pending() {
    let mut node = new_node();
    let sent = node.take_outgoing();
    let request = &sent[0].hop.content.content;
    let ack_msg = RoutingMessage::ack_from(request, Authority::Section(XorName(100)));
    let ack_msg = RoutingMessage { src: Authority::Section(XorName(100)), dst: us(), content: ack_msg.content };
    let hop = section_msg(ack_msg.content, quorate());
    assert!(matches!(node.handle_hop_message(hop, PROXY_PEER), Ok(Transition::Stay)));
    assert!(!node.has_unacknowledged());
    // An ack is never acknowledged.
    assert!(node.take_outgoing().is_empty());
}

#[test]
fn relocate_response_gives_address_in_interval() {
    let mut node = new_node();
    match node.handle_hop_message(relocate_response(1000, 1009), PROXY_PEER) {
        Ok(Transition::IntoBootstrapping { target_interval, our_section }) => {
            assert_eq!(target_interval, NameInterval(XorName(1000), XorName(1009)));
            assert_eq!(our_section, vec![PublicKey(20), PublicKey(21)]);
            let new_id = FullId::within_range(PublicKey(50), &target_interval.0, &target_interval.1, 23);
            assert_eq!(new_id.public_id().name(), XorName(1003));
            let handover = node.into_bootstrapping(new_id, our_section);
            assert_eq!(handover.old_full_id, our_id());
            assert_eq!(handover.new_full_id.public_id().name(), XorName(1003));
            assert_eq!(handover.min_section_size, 3);
        }
        _ => panic!("expected a transition into bootstrapping"),
    }
}

#[test]
fn within_range_values() {
    let lo = XorName(10);
    let hi = XorName(19);
    for draw in 0..100u64 {
        let id = FullId::within_range(PublicKey(1), &lo, &hi, draw);
        assert!(id.public_id().name().0 >= 10 && id.public_id().name().0 <= 19);
    }
    assert_eq!(FullId::within_range(PublicKey(1), &lo, &hi, 25).public_id().name(), XorName(15));
    assert_eq!(FullId::within_range(PublicKey(1), &XorName(0), &XorName(u64::MAX), 7).public_id().name(), XorName(7));
    assert_eq!(FullId::within_range(PublicKey(1), &XorName(4), &XorName(4), 99).public_id().name(), XorName(4));
}

#[test]
fn other_timer_does_not_end_state() {
    let mut node = new_node();
    let mut outbox = EventBox::new();
    let (transition, reply) = node.handle_action(Action::Timeout(77), &mut outbox);
    assert!(matches!(transition, Transition::Stay));
    assert!(reply.is_none());
    assert!(outbox.take_events().is_empty());
    let (transition, _) = node.handle_action(Action::Timeout(0), &mut outbox);
    assert!(matches!(transition, Transition::Terminate));
    assert_eq!(outbox.take_events(), vec![Event::RestartRequired]);
}

#[test]
fn ack_timer_resends_on_next_route() {
    let mut node = new_node();
    let _ = node.take_outgoing();
    let mut outbox = EventBox::new();
    let (transition, _) = node.handle_action(Action::Timeout(1), &mut outbox);
    assert!(matches!(transition, Transition::Stay));
    let sent = node.take_outgoing();
    assert_eq!(sent.len(), 1);
    assert_eq!(sent[0].hop.route, 1);
    assert!(outbox.take_events().is_empty());
}

#[test]
fn section_update_is_ignored_then_relocation_succeeds() {
    let mut node = new_node();
    assert!(matches!(node.handle_hop_message(section_update(), PROXY_PEER), Ok(Transition::Stay)));
    assert_eq!(node.name(), XorName(100));
    assert!(matches!(
        node.handle_hop_message(relocate_response(0, 50), PROXY_PEER),
        Ok(Transition::IntoBootstrapping { .. })
    ));
}

#[test]
fn lost_proxy_terminates() {
    let mut node = new_node();
    let mut outbox = EventBox::new();
    let t = node.handle_crust_event(TransportEvent::LostPeer(PROXY_PEER), &mut outbox);
    assert!(matches!(t, Transition::Terminate));
    assert_eq!(outbox.take_events(), vec![Event::Terminate]);
}

#[test]
fn lost_other_peers_do_not_terminate() {
    let mut node = new_node();
    let mut outbox = EventBox::new();
    assert!(matches!(node.handle_crust_event(TransportEvent::LostPeer(OUR_PEER), &mut outbox), Transition::Stay));
    assert!(matches!(node.handle_crust_event(TransportEvent::LostPeer(PeerId(42)), &mut outbox), Transition::Stay));
    assert!(outbox.take_events().is_empty());
}

#[test]
fn insufficient_signatures_drop_message_without_ack() {
    let mut node = new_node();
    let _ = node.take_outgoing();
    let hop = section_msg(
        MessageContent::SectionUpdate { members: vec![], message_id: MessageId(40) },
        vec![PublicKey(10)],
    );
    assert!(matches!(node.handle_hop_message(hop, PROXY_PEER), Err(RoutingError::NotEnoughSignatures)));
    assert!(node.take_outgoing().is_empty());
    // Nothing was recorded: the same content with a quorum is still new.
    let hop = section_msg(MessageContent::SectionUpdate { members: vec![], message_id: MessageId(40) }, quorate());
    assert!(matches!(node.handle_hop_message(hop, PROXY_PEER), Ok(Transition::Stay)));
}

#[test]
fn integrity_rules() {
    let client_msg = RoutingMessage { src: us(), dst: Authority::Section(XorName(1)), content: MessageContent::NodeApproval { message_id: MessageId(1) } };
    let signed = SignedMessage::new(client_msg, &our_id(), vec![]);
    assert_eq!(signed.check_integrity(3, quorum()), Ok(()));
    let mut forged = signed.clone();
    forged.signatures = vec![PublicKey(9)];
    assert_eq!(forged.check_integrity(3, quorum()), Err(RoutingError::FailedSignature));
    let mut two = signed.clone();
    two.signatures = vec![PublicKey(1), PublicKey(1)];
    assert_eq!(two.check_integrity(3, quorum()), Err(RoutingError::FailedSignature));

    let hop = section_update();
    let mut section = hop.content.clone();
    assert_eq!(section.check_integrity(3, quorum()), Ok(()));
    // Two of five members do not make more than half, counted against at least five.
    assert_eq!(section.check_integrity(5, quorum()), Err(RoutingError::NotEnoughSignatures));
    section.signatures = vec![PublicKey(10), PublicKey(10)];
    assert_eq!(section.check_integrity(3, quorum()), Err(RoutingError::FailedSignature));
    section.signatures = vec![PublicKey(10), PublicKey(13)];
    assert_eq!(section.check_integrity(3, quorum()), Err(RoutingError::FailedSignature));
}

#[test]
fn filter_classifies_by_message_and_route() {
    let mut filter = RoutingMessageFilter::new();
    let msg = RoutingMessage { src: us(), dst: Authority::Section(XorName(1)), content: MessageContent::SectionSplit(MessageId(2)) };
    assert_eq!(filter.filter_incoming(&msg, 0), FilteringResult::NewMessage);
    assert_eq!(filter.filter_incoming(&msg, 0), FilteringResult::KnownMessageAndRoute);
    assert_eq!(filter.filter_incoming(&msg, 1), FilteringResult::KnownMessage);
    assert_eq!(filter.filter_incoming(&msg, 1), FilteringResult::KnownMessageAndRoute);
    assert!(!filter.filter_outgoing(&msg, &PeerId(3), 0));
    assert!(filter.filter_outgoing(&msg, &PeerId(3), 0));
    assert!(!filter.filter_outgoing(&msg, &PeerId(4), 0));
}

#[test]
fn filter_forgets_oldest_when_full() {
    let mut filter = RoutingMessageFilter::new();
    let msg = |id: u64| RoutingMessage { src: us(), dst: Authority::Section(XorName(1)), content: MessageContent::SectionSplit(MessageId(id)) };
    for id in 0..1001u64 {
        assert_eq!(filter.filter_incoming(&msg(id), 0), FilteringResult::NewMessage);
    }
    assert_eq!(filter.filter_incoming(&msg(0), 0), FilteringResult::NewMessage);
    assert_eq!(filter.filter_incoming(&msg(1000), 0), FilteringResult::KnownMessageAndRoute);
}

#[test]
fn actions_are_answered() {
    let mut node = new_node();
    let mut outbox = EventBox::new();
    let (t, reply) = node.handle_action(
        Action::NodeSendMessage { src: us(), dst: Authority::Section(XorName(1)), content: vec![1], priority: 0 },
        &mut outbox,
    );
    assert!(matches!(t, Transition::Stay));
    assert!(matches!(reply, Some(Reply::Sent(Err(InterfaceError::InvalidState)))));
    let (_, reply) = node.handle_action(
        Action::ClientSendRequest { content: vec![1], dst: Authority::Section(XorName(1)), priority: 0 },
        &mut outbox,
    );
    assert!(matches!(reply, Some(Reply::Sent(Err(InterfaceError::InvalidState)))));
    let (_, reply) = node.handle_action(Action::Name, &mut outbox);
    assert!(matches!(reply, Some(Reply::Name(XorName(100)))));
    let (t, reply) = node.handle_action(Action::ResourceProofResult(PeerId(5), vec![]), &mut outbox);
    assert!(matches!(t, Transition::Stay));
    assert!(reply.is_none());
    let (t, _) = node.handle_action(Action::Terminate, &mut outbox);
    assert!(matches!(t, Transition::Terminate));
    assert!(outbox.take_events().is_empty());
}

#[test]
fn undecodable_and_direct_messages_are_dropped() {
    let mut node = new_node();
    let mut outbox = EventBox::new();
    assert!(matches!(node.handle_crust_event(TransportEvent::NewMessage(PROXY_PEER, None), &mut outbox), Transition::Stay));
    assert!(matches!(
        node.handle_crust_event(TransportEvent::NewMessage(PROXY_PEER, Some(Message::Direct(vec![1]))), &mut outbox),
        Transition::Stay
    ));
    assert!(matches!(node.handle_crust_event(TransportEvent::Other, &mut outbox), Transition::Stay));
    assert!(matches!(
        node.handle_crust_event(TransportEvent::NewMessage(PROXY_PEER, Some(Message::Hop(relocate_response(3, 4)))), &mut outbox),
        Transition::IntoBootstrapping { .. }
    ));
}

#[test]
fn resend_unacknowledged_resends_pending() {
    let mut node = new_node();
    let _ = node.take_outgoing();
    assert!(node.resend_unacknowledged());
    let sent = node.take_outgoing();
    assert_eq!(sent.len(), 1);
    assert_eq!(sent[0].hop.route, 1);
}

#[test]
fn gives_up_after_min_section_size_routes() {
    let mut node = new_node();
    let _ = node.take_outgoing();
    let mut outbox = EventBox::new();
    // Routes 0, 1 and 2 are tried; with a minimum section size of three the message is dropped.
    let mut token = 1u64;
    for expected_route in 1..3u8 {
        node.handle_action(Action::Timeout(token), &mut outbox);
        let sent = node.take_outgoing();
        assert_eq!(sent.len(), 1);
        assert_eq!(sent[0].hop.route, expected_route);
        let scheduled = node.take_scheduled();
        token = scheduled.last().unwrap().token;
    }
    node.handle_action(Action::Timeout(token), &mut outbox);
    assert!(node.take_outgoing().is_empty());
    assert!(!node.has_unacknowledged());
}

#[test]
fn unmatched_ack_changes_nothing() {
    let mut mgr = AckManager::new();
    let msg = RoutingMessage { src: us(), dst: Authority::Section(XorName(5)), content: MessageContent::NodeApproval { message_id: MessageId(3) } };
    let ack = Ack { key: msg.key() };
    let other = Ack { key: MessageKey { src: us(), dst: Authority::Section(XorName(5)), id: MessageId(4), ack: false } };
    let unacked = UnacknowledgedMessage { routing_msg: msg, route: 0, timer_token: 4 };
    assert!(mgr.add_to_pending(ack, unacked).is_none());
    mgr.receive(other);
    assert!(mgr.is_pending(&ack));
    assert!(!mgr.is_pending(&other));
    assert_eq!(mgr.timer_tokens(), vec![4]);
}

#[test]
fn unmatched_ack_does_not_block_later_sends() {
    let mut node = new_node();
    let sent = node.take_outgoing();
    let request = &sent[0].hop.content.content;
    let ack_msg = RoutingMessage::ack_from(request, Authority::Section(XorName(100)));
    // Acknowledge the relocation request, then acknowledge it again: the second one matches
    // nothing and is ignored.
    let hop = section_msg(ack_msg.content.clone(), quorate());
    assert!(matches!(node.handle_hop_message(hop, PROXY_PEER), Ok(Transition::Stay)));
    assert!(!node.has_unacknowledged());
    let mut late = section_msg(ack_msg.content, quorate());
    late.route = 1;
    assert!(matches!(node.handle_hop_message(late, PROXY_PEER), Err(RoutingError::FilterCheckFailed)));
    assert!(!node.has_unacknowledged());
}

#[test]
fn within_interval_rejects_empty_interval() {
    assert!(FullId::within_interval(PublicKey(1), &NameInterval(XorName(9), XorName(3)), 5).is_none());
    let id = FullId::within_interval(PublicKey(1), &NameInterval(XorName(3), XorName(9)), 5).expect("non-empty");
    assert_eq!(id.public_id().name(), XorName(8));
    assert_eq!(id.public_id().signing_public_key(), PublicKey(1));
}

#[test]
fn fired_cancelled_timer_is_noop() {
    let mut node = new_node();
    let sent = node.take_outgoing();
    let _ = node.take_scheduled();
    let request = &sent[0].hop.content.content;
    let ack_msg = RoutingMessage::ack_from(request, Authority::Section(XorName(100)));
    let hop = section_msg(ack_msg.content, quorate());
    assert!(matches!(node.handle_hop_message(hop, PROXY_PEER), Ok(Transition::Stay)));
    let mut outbox = EventBox::new();
    let (t, _) = node.handle_action(Action::Timeout(1), &mut outbox);
    assert!(matches!(t, Transition::Stay));
    assert!(node.take_outgoing().is_empty());
    assert!(node.take_scheduled().is_empty());
    assert!(outbox.take_events().is_empty());
}
