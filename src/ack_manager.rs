use vstd::prelude::*;
use crate::messages::{Ack, RoutingMessage};

verus! {

/// A message sent that still waits for its acknowledgement.
pub struct UnacknowledgedMessage {
    pub routing_msg: RoutingMessage,
    pub route: u8,
    pub timer_token: u64,
}

/// A pending entry: the acknowledgement awaited and the message it is for.
pub struct PendingAck {
    pub ack: Ack,
    pub unacked: UnacknowledgedMessage,
}

/// The acknowledgements awaited in `pending`, in order.
pub open spec fn pending_acks(pending: Seq<PendingAck>) -> Seq<Ack> {
    pending.map_values(|p: PendingAck| p.ack)
}

/// The position of the entry awaiting `ack`; meaningful when there is one.
pub open spec fn index_of_ack(pending: Seq<PendingAck>, ack: Ack) -> int {
    choose|i: int| 0 <= i < pending.len() && pending[i].ack == ack
}

/// `pending` after `ack` arrived: without the entry that awaited it, if any.
pub open spec fn pending_after_ack(pending: Seq<PendingAck>, ack: Ack) -> Seq<PendingAck> {
    if pending_acks(pending).contains(ack) {
        pending.remove(index_of_ack(pending, ack))
    } else {
        pending
    }
}

/// Tracks the messages sent that wait for acknowledgement.
pub struct AckManager {
    pending: Vec<PendingAck>,
}

impl AckManager {
    pub closed spec fn pending(&self) -> Seq<PendingAck> {
        self.pending@
    }

    /// At most one entry awaits each acknowledgement.
    pub open spec fn wf(&self) -> bool {
        pending_acks(self.pending()).no_duplicates()
    }

    pub fn new() -> (r: AckManager)
        ensures
            r.wf(),
            r.pending() == Seq::<PendingAck>::empty(),
    {
        let r = AckManager { pending: Vec::new() };
        assert(pending_acks(r.pending@) =~= Seq::<Ack>::empty());
        r
    }

    fn find(&self, ack: &Ack) -> (r: Option<usize>)
        requires
            self.wf(),
        ensures
            r is None ==> !pending_acks(self.pending()).contains(*ack),
            r is Some ==> {
                &&& pending_acks(self.pending()).contains(*ack)
                &&& r->0 == index_of_ack(self.pending(), *ack)
            },
    {
        let mut i: usize = 0;
        while i < self.pending.len()
            invariant
                self.wf(),
                i <= self.pending@.len(),
                forall|j: int| 0 <= j < i ==> self.pending@[j].ack != *ack,
            decreases self.pending@.len() - i,
        {
            if self.pending[i].ack == *ack {
                proof {
                    let acks = pending_acks(self.pending@);
                    assert(acks[i as int] == *ack);
                    assert(0 <= i < self.pending@.len() && self.pending@[i as int].ack == *ack);
                    let k = index_of_ack(self.pending@, *ack);
                    assert(acks[k] == *ack);
                }
                return Some(i);
            }
            i += 1;
        }
        assert forall|j: int| 0 <= j < pending_acks(self.pending@).len() implies pending_acks(self.pending@)[j] != *ack by {
            assert(self.pending@[j].ack != *ack);
        }
        None
    }

    /// Whether an entry awaits `ack`.
    pub fn is_pending(&self, ack: &Ack) -> (r: bool)
        requires
            self.wf(),
        ensures
            r == pending_acks(self.pending()).contains(*ack),
    {
        self.find(ack).is_some()
    }

    /// Takes note of `ack`: the entry that awaited it is dropped; an ack that matches no
    /// entry changes nothing.
    pub fn receive(&mut self, ack: Ack)
        requires
            old(self).wf(),
        ensures
            final(self).wf(),
            final(self).pending() == pending_after_ack(old(self).pending(), ack),
            !pending_acks(old(self).pending()).contains(ack) ==> *final(self) == *old(self),
    {
        if let Some(i) = self.find(&ack) {
            let ghost before = self.pending@;
            self.pending.remove(i);
            proof {
                lemma_remove_keeps_unique(before, i as int);
            }
        }
    }

    /// Starts awaiting `ack` for `unacked_msg`; an entry that already awaited it is returned.
    pub fn add_to_pending(&mut self, ack: Ack, unacked_msg: UnacknowledgedMessage) -> (r: Option<UnacknowledgedMessage>)
        requires
            old(self).wf(),
        ensures
            final(self).wf(),
            pending_acks(old(self).pending()).contains(ack) ==> {
                let i = index_of_ack(old(self).pending(), ack);
                &&& r == Some(old(self).pending()[i].unacked)
                &&& final(self).pending() == old(self).pending().update(i, PendingAck { ack, unacked: unacked_msg })
            },
            !pending_acks(old(self).pending()).contains(ack) ==> {
                &&& r is None
                &&& final(self).pending() == old(self).pending().push(PendingAck { ack, unacked: unacked_msg })
            },
    {
        let entry = PendingAck { ack, unacked: unacked_msg };
        match self.find(&ack) {
            Some(i) => {
                let ghost before = self.pending@;
                let mut entry = entry;
                std::mem::swap(&mut self.pending[i], &mut entry);
                proof {
                    assert(pending_acks(self.pending@) =~= pending_acks(before));
                }
                Some(entry.unacked)
            },
            None => {
                let ghost before = self.pending@;
                self.pending.push(entry);
                proof {
                    assert(pending_acks(self.pending@) =~= pending_acks(before).push(ack));
                }
                None
            },
        }
    }

    /// Takes out the entry whose timer is `token`, if any, with its route advanced for the
    /// next attempt (it stays at the last route once there).
    pub fn find_timed_out(&mut self, token: u64) -> (r: Option<(UnacknowledgedMessage, Ack)>)
        requires
            old(self).wf(),
        ensures
            final(self).wf(),
            r is None ==> *final(self) == *old(self)
                && forall|j: int| 0 <= j < old(self).pending().len()
                    ==> (#[trigger] old(self).pending()[j]).unacked.timer_token != token,
            r is Some ==> exists|i: int| {
                &&& 0 <= i < old(self).pending().len()
                &&& (#[trigger] old(self).pending()[i]).unacked.timer_token == token
                &&& forall|j: int| 0 <= j < i ==> (#[trigger] old(self).pending()[j]).unacked.timer_token != token
                &&& final(self).pending() == old(self).pending().remove(i)
                &&& (r->0).1 == old(self).pending()[i].ack
                &&& (r->0).0.timer_token == token
                &&& (r->0).0.routing_msg == old(self).pending()[i].unacked.routing_msg
                &&& (r->0).0.route == crate::joining_node::next_route(old(self).pending()[i].unacked.route)
            },
    {
        let mut i: usize = 0;
        while i < self.pending.len()
            invariant
                *self == *old(self),
                self.wf(),
                i <= self.pending@.len(),
                forall|j: int| 0 <= j < i ==> (#[trigger] self.pending@[j]).unacked.timer_token != token,
            decreases self.pending@.len() - i,
        {
            if self.pending[i].unacked.timer_token == token {
                let ghost before = self.pending@;
                let entry = self.pending.remove(i);
                proof {
                    lemma_remove_keeps_unique(before, i as int);
                }
                let mut unacked = entry.unacked;
                if unacked.route < u8::MAX {
                    unacked.route = unacked.route + 1;
                }
                return Some((unacked, entry.ack));
            }
            i += 1;
        }
        None
    }

    /// Whether any message waits for acknowledgement.
    pub fn has_pending(&self) -> (r: bool)
        ensures
            r == (self.pending().len() > 0),
    {
        self.pending.len() > 0
    }

    /// The timer tokens of the pending entries, in order.
    pub fn timer_tokens(&self) -> (r: Vec<u64>)
        ensures
            r@ == self.pending().map_values(|p: PendingAck| p.unacked.timer_token),
    {
        let mut r: Vec<u64> = Vec::new();
        let mut i: usize = 0;
        while i < self.pending.len()
            invariant
                i <= self.pending@.len(),
                r@ == self.pending@.subrange(0, i as int).map_values(|p: PendingAck| p.unacked.timer_token),
            decreases self.pending@.len() - i,
        {
            r.push(self.pending[i].unacked.timer_token);
            proof {
                assert(self.pending@.subrange(0, i + 1).map_values(|p: PendingAck| p.unacked.timer_token)
                    =~= self.pending@.subrange(0, i as int).map_values(|p: PendingAck| p.unacked.timer_token)
                        .push(self.pending@[i as int].unacked.timer_token));
            }
            i += 1;
        }
        assert(self.pending@.subrange(0, i as int) =~= self.pending@);
        r
    }
}

proof fn lemma_remove_keeps_unique(pending: Seq<PendingAck>, i: int)
    requires
        0 <= i < pending.len(),
        pending_acks(pending).no_duplicates(),
    ensures
        pending_acks(pending.remove(i)).no_duplicates(),
{
    let before = pending_acks(pending);
    let after = pending_acks(pending.remove(i));
    assert(after =~= before.remove(i));
    assert forall|a: int, b: int| 0 <= a < after.len() && 0 <= b < after.len() && a != b
        implies after[a] != after[b] by {
        let a0 = if a < i { a } else { a + 1 };
        let b0 = if b < i { b } else { b + 1 };
        assert(after[a] == before[a0]);
        assert(after[b] == before[b0]);
    }
}

/// Receiving the same acknowledgement a second time changes nothing.
pub proof fn lemma_receive_idempotent(pending: Seq<PendingAck>, ack: Ack)
    requires
        pending_acks(pending).no_duplicates(),
    ensures
        !pending_acks(pending_after_ack(pending, ack)).contains(ack),
        pending_after_ack(pending_after_ack(pending, ack), ack) == pending_after_ack(pending, ack),
{
    let once = pending_after_ack(pending, ack);
    if pending_acks(pending).contains(ack) {
        let k = index_of_ack(pending, ack);
        let acks = pending_acks(pending);
        assert(acks[k] == ack);
        assert(pending_acks(once) =~= acks.remove(k));
        if pending_acks(once).contains(ack) {
            let j = choose|j: int| 0 <= j < pending_acks(once).len() && pending_acks(once)[j] == ack;
            let j0 = if j < k { j } else { j + 1 };
            assert(acks[j0] == ack);
        }
    }
}

} // verus!
