use vstd::prelude::*;

verus! {

/// Process-level events for the observer of the node.
#[derive(Clone, Copy, Debug, PartialEq, Eq, Structural)]
pub enum Event {
    /// The node lost its way into the network and must bootstrap again from scratch.
    RestartRequired,
    /// The node has shut down.
    Terminate,
}

/// Collects the events a handler emits, in order.
pub struct EventBox {
    events: Vec<Event>,
}

impl EventBox {
    pub closed spec fn view(&self) -> Seq<Event> {
        self.events@
    }

    pub fn new() -> (r: EventBox)
        ensures
            r@ == Seq::<Event>::empty(),
    {
        EventBox { events: Vec::new() }
    }

    pub fn send_event(&mut self, event: Event)
        ensures
            final(self)@ == old(self)@.push(event),
    {
        self.events.push(event);
    }

    /// Hands over the events emitted so far.
    pub fn take_events(&mut self) -> (r: Vec<Event>)
        ensures
            r@ == old(self)@,
            final(self)@ == Seq::<Event>::empty(),
    {
        let mut taken: Vec<Event> = Vec::new();
        std::mem::swap(&mut taken, &mut self.events);
        taken
    }
}

} // verus!
