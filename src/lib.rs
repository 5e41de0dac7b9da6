//! Lifecycle core of a routing node that is joining the network: message envelopes, duplicate
//! filtering, acknowledgement tracking, the action queue and the joining-node state handler.

pub mod ack_manager;
pub mod action;
pub mod error;
pub mod id;
pub mod joining_node;
pub mod messages;
pub mod outbox;
pub mod routing_message_filter;
pub mod timer;
pub mod types;
