use routing::ack_manager::{AckManager, UnacknowledgedMessage};
use routing::messages::{Ack, Authority, MessageContent, RoutingMessage};
use routing::outbox::{Event, EventBox};
use routing::timer::Timer;
use routing::types::{MessageId, PeerId, PublicKey, XorName};

fn client() -> Authority {
    Authority::Client { client_key: PublicKey(1), proxy_node_name: XorName(2), peer_id: PeerId(3) }
}

fn message(id: u64) -> RoutingMessage {
    RoutingMessage { src: client(), dst: Authority::Section(XorName(9)), content: MessageContent::NodeApproval { message_id: MessageId(id) } }
}

#[test]
fn timer_hands_out_increasing_tokens() {
    let mut timer = Timer::new();
    assert_eq!(timer.schedule(5), 0);
    assert_eq!(timer.schedule(6), 1);
    let requests = timer.take_scheduled();
    assert_eq!(requests.len(), 2);
    assert_eq!(requests[1].duration_secs, 6);
    assert!(timer.take_scheduled().is_empty());
    assert_eq!(timer.schedule(7), 2);
}

#[test]
fn event_box_keeps_order() {
    let mut outbox = EventBox::new();
    outbox.send_event(Event::RestartRequired);
    outbox.send_event(Event::Terminate);
    assert_eq!(outbox.take_events(), vec![Event::RestartRequired, Event::Terminate]);
    assert!(outbox.take_events().is_empty());
}

#[test]
fn pending_entry_is_replaced_and_timed_out_once() {
    let mut mgr = AckManager::new();
    let ack = Ack { key: message(1).key() };
    let first = UnacknowledgedMessage { routing_msg: message(1), route: 0, timer_token: 10 };
    let second = UnacknowledgedMessage { routing_msg: message(1), route: 2, timer_token: 11 };
    assert!(mgr.add_to_pending(ack, first).is_none());
    let replaced = mgr.add_to_pending(ack, second).expect("entry replaced");
    assert_eq!(replaced.timer_token, 10);
    assert_eq!(mgr.timer_tokens(), vec![11]);
    assert!(mgr.find_timed_out(10).is_none());
    let (unacked, timed_out) = mgr.find_timed_out(11).expect("entry timed out");
    assert_eq!(unacked.route, 3);
    assert_eq!(timed_out, ack);
    assert!(!mgr.has_pending());
    assert!(mgr.find_timed_out(11).is_none());
}

#[test]
fn ack_keys_tell_messages_apart() {
    let a = message(1).key();
    let b = message(2).key();
    assert_ne!(a, b);
    let ack_msg = RoutingMessage::ack_from(&message(1), Authority::Section(XorName(9)));
    assert_eq!(ack_msg.dst, client());
    assert!(matches!(ack_msg.content, MessageContent::Ack(Ack { key }, 0) if key == a));
    assert!(ack_msg.key().ack);
    assert_eq!(ack_msg.key().id, MessageId(1));
}
