use vstd::prelude::*;
use crate::messages::{MessageKey, RoutingMessage};
use crate::types::PeerId;

verus! {

/// How many entries each direction of the filter keeps; the oldest goes first.
pub const FILTER_CAPACITY: usize = 1000;

/// The verdict on an incoming message.
#[derive(Clone, Copy, Debug, PartialEq, Eq, Structural)]
pub enum FilteringResult {
    /// Never seen: handle it once.
    NewMessage,
    /// Seen before, on another route.
    KnownMessage,
    /// Seen before, on this route.
    KnownMessageAndRoute,
}

/// A message seen arriving on a route.
#[derive(Clone, Copy, Debug, PartialEq, Eq, Structural)]
pub struct IncomingEntry {
    pub key: MessageKey,
    pub route: u8,
}

/// A message sent to a peer on a route.
#[derive(Clone, Copy, Debug, PartialEq, Eq, Structural)]
pub struct OutgoingEntry {
    pub key: MessageKey,
    pub peer_id: PeerId,
    pub route: u8,
}

/// `entries` after `e` is remembered: appended, with the oldest entry dropped when full.
pub open spec fn remember<T>(entries: Seq<T>, e: T) -> Seq<T> {
    if entries.len() < FILTER_CAPACITY {
        entries.push(e)
    } else {
        entries.drop_first().push(e)
    }
}

/// Whether `key` was seen on any route.
pub open spec fn key_seen(entries: Seq<IncomingEntry>, key: MessageKey) -> bool {
    exists|i: int| 0 <= i < entries.len() && (#[trigger] entries[i]).key == key
}

pub open spec fn classify(entries: Seq<IncomingEntry>, key: MessageKey, route: u8) -> FilteringResult {
    if entries.contains(IncomingEntry { key, route }) {
        FilteringResult::KnownMessageAndRoute
    } else if key_seen(entries, key) {
        FilteringResult::KnownMessage
    } else {
        FilteringResult::NewMessage
    }
}

/// The entries after a lookup of `e`: unchanged when it is there, else with `e` remembered.
pub open spec fn record<T>(entries: Seq<T>, e: T) -> Seq<T> {
    if entries.contains(e) {
        entries
    } else {
        remember(entries, e)
    }
}

/// Remembers the messages recently seen and sent, per route, to drop replays and loops.
pub struct RoutingMessageFilter {
    incoming: Vec<IncomingEntry>,
    outgoing: Vec<OutgoingEntry>,
}

fn push_bounded<T>(entries: &mut Vec<T>, e: T)
    requires
        old(entries)@.len() <= FILTER_CAPACITY,
    ensures
        final(entries)@ == remember(old(entries)@, e),
        final(entries)@.len() <= FILTER_CAPACITY,
{
    if entries.len() >= FILTER_CAPACITY {
        entries.remove(0);
    }
    entries.push(e);
}

impl RoutingMessageFilter {
    pub closed spec fn incoming_view(&self) -> Seq<IncomingEntry> {
        self.incoming@
    }

    pub closed spec fn outgoing_view(&self) -> Seq<OutgoingEntry> {
        self.outgoing@
    }

    pub open spec fn wf(&self) -> bool {
        &&& self.incoming_view().len() <= FILTER_CAPACITY
        &&& self.outgoing_view().len() <= FILTER_CAPACITY
    }

    pub fn new() -> (r: RoutingMessageFilter)
        ensures
            r.wf(),
            r.incoming_view() == Seq::<IncomingEntry>::empty(),
            r.outgoing_view() == Seq::<OutgoingEntry>::empty(),
    {
        RoutingMessageFilter { incoming: Vec::new(), outgoing: Vec::new() }
    }

    /// Classifies `msg` arriving on `route`, and remembers that it did.
    pub fn filter_incoming(&mut self, msg: &RoutingMessage, route: u8) -> (r: FilteringResult)
        requires
            old(self).wf(),
        ensures
            final(self).wf(),
            r == classify(old(self).incoming_view(), msg.spec_key(), route),
            final(self).incoming_view() == record(old(self).incoming_view(), IncomingEntry { key: msg.spec_key(), route }),
            final(self).outgoing_view() == old(self).outgoing_view(),
    {
        let key = msg.key();
        let entry = IncomingEntry { key, route };
        let mut known_key = false;
        let mut i: usize = 0;
        while i < self.incoming.len()
            invariant
                i <= self.incoming@.len(),
                self.wf(),
                self.incoming@ == old(self).incoming@,
                self.outgoing@ == old(self).outgoing@,
                key == msg.spec_key(),
                entry == (IncomingEntry { key, route }),
                forall|j: int| 0 <= j < i ==> self.incoming@[j] != entry,
                known_key == (exists|j: int| 0 <= j < i && (#[trigger] self.incoming@[j]).key == key),
            decreases self.incoming@.len() - i,
        {
            let seen = self.incoming[i];
            if seen == entry {
                assert(self.incoming@[i as int] == entry);
                return FilteringResult::KnownMessageAndRoute;
            }
            if seen.key == key {
                known_key = true;
            }
            i += 1;
        }
        assert(!self.incoming@.contains(entry));
        push_bounded(&mut self.incoming, entry);
        if known_key {
            FilteringResult::KnownMessage
        } else {
            FilteringResult::NewMessage
        }
    }

    /// Whether `msg` was already sent to `peer_id` on `route`; remembers that it now was.
    pub fn filter_outgoing(&mut self, msg: &RoutingMessage, peer_id: &PeerId, route: u8) -> (r: bool)
        requires
            old(self).wf(),
        ensures
            final(self).wf(),
            r == old(self).outgoing_view().contains(OutgoingEntry { key: msg.spec_key(), peer_id: *peer_id, route }),
            final(self).outgoing_view() == record(
                old(self).outgoing_view(),
                OutgoingEntry { key: msg.spec_key(), peer_id: *peer_id, route },
            ),
            final(self).incoming_view() == old(self).incoming_view(),
    {
        let entry = OutgoingEntry { key: msg.key(), peer_id: *peer_id, route };
        let mut i: usize = 0;
        while i < self.outgoing.len()
            invariant
                i <= self.outgoing@.len(),
                self.wf(),
                self.incoming@ == old(self).incoming@,
                self.outgoing@ == old(self).outgoing@,
                entry == (OutgoingEntry { key: msg.spec_key(), peer_id: *peer_id, route }),
                forall|j: int| 0 <= j < i ==> self.outgoing@[j] != entry,
            decreases self.outgoing@.len() - i,
        {
            if self.outgoing[i] == entry {
                assert(self.outgoing@[i as int] == entry);
                return true;
            }
            i += 1;
        }
        assert(!self.outgoing@.contains(entry));
        push_bounded(&mut self.outgoing, entry);
        false
    }
}

/// A message that arrives a second time on the same route is classified as known on that
/// route, and the second arrival leaves the filter as the first left it.
pub proof fn lemma_replay_is_known(entries: Seq<IncomingEntry>, key: MessageKey, route: u8)
    requires
        entries.len() <= FILTER_CAPACITY,
    ensures
        classify(record(entries, IncomingEntry { key, route }), key, route)
            == FilteringResult::KnownMessageAndRoute,
        record(record(entries, IncomingEntry { key, route }), IncomingEntry { key, route })
            == record(entries, IncomingEntry { key, route }),
{
    let e = IncomingEntry { key, route };
    let after = record(entries, e);
    if !entries.contains(e) {
        assert(after[after.len() - 1] == e);
    }
    assert(after.contains(e));
}

} // verus!
