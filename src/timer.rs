use vstd::prelude::*;

verus! {

/// A request to fire `token` after `duration_secs` seconds.
#[derive(Clone, Copy, Debug, PartialEq, Eq, Structural)]
pub struct Scheduled {
    pub token: u64,
    pub duration_secs: u64,
}

/// Hands out timer tokens and queues the requests to fire them; the event loop around the
/// library runs the clock and delivers each fired token back as a timeout action.
pub struct Timer {
    next_token: u64,
    requests: Vec<Scheduled>,
}

impl Timer {
    pub closed spec fn next_token(&self) -> u64 {
        self.next_token
    }

    pub closed spec fn requests(&self) -> Seq<Scheduled> {
        self.requests@
    }

    pub fn new() -> (r: Timer)
        ensures
            r.next_token() == 0,
            r.requests() == Seq::<Scheduled>::empty(),
    {
        Timer { next_token: 0, requests: Vec::new() }
    }

    /// Asks for a new token to fire after `duration_secs`, and returns it.
    pub fn schedule(&mut self, duration_secs: u64) -> (r: u64)
        ensures
            r == old(self).next_token(),
            final(self).next_token() == (if r == u64::MAX { 0 } else { r + 1 }),
            final(self).requests() == old(self).requests().push(Scheduled { token: r, duration_secs }),
    {
        let token = self.next_token;
        self.next_token = if token == u64::MAX { 0 } else { token + 1 };
        self.requests.push(Scheduled { token, duration_secs });
        token
    }

    /// Hands over the requests made since the last call.
    pub fn take_scheduled(&mut self) -> (r: Vec<Scheduled>)
        ensures
            r@ == old(self).requests(),
            final(self).requests() == Seq::<Scheduled>::empty(),
            final(self).next_token() == old(self).next_token(),
    {
        let mut taken: Vec<Scheduled> = Vec::new();
        std::mem::swap(&mut taken, &mut self.requests);
        taken
    }
}

} // verus!
