//! Signals that animation clips fire at marked moments of their timeline.

use vstd::prelude::*;

verus! {

/// The signals that one clip has fired and nobody has consumed yet,
/// oldest first.
#[derive(Clone, Debug)]
pub struct SignalQueue {
    events: Vec<u64>,
}

impl View for SignalQueue {
    type V = Seq<u64>;

    closed spec fn view(&self) -> Seq<u64> {
        self.events@
    }
}

impl SignalQueue {
    pub fn new() -> (r: SignalQueue)
        ensures
            r@ == Seq::<u64>::empty(),
    {
        SignalQueue { events: Vec::new() }
    }

    /// Records that the clip fired `signal_id`, after all that it fired
    /// before.
    pub fn push(&mut self, signal_id: u64)
        ensures
            final(self)@ == old(self)@.push(signal_id),
    {
        self.events.push(signal_id);
    }

    /// Takes the oldest signal out of the queue.
    pub fn pop_event(&mut self) -> (r: Option<u64>)
        ensures
            old(self)@.len() == 0 ==> r is None && final(self)@ == old(self)@,
            old(self)@.len() > 0 ==> r == Some(old(self)@[0]) && final(self)@ == old(self)@.drop_first(),
    {
        if self.events.len() == 0 {
            None
        } else {
            let first: u64 = self.events.remove(0);
            assert(self.events@ =~= old(self).events@.drop_first());
            Some(first)
        }
    }

    /// Takes every signal out of the queue and tells how many of them
    /// were `signal_id`.
    pub fn drain(&mut self, signal_id: u64) -> (r: usize)
        ensures
            final(self)@.len() == 0,
            r == count_signal(old(self)@, signal_id),
    {
        let total: usize = self.events.len();
        let mut found: usize = 0;
        loop
            invariant
                count_signal(old(self)@, signal_id) == found + count_signal(self@, signal_id),
                found + self@.len() <= total,
            ensures
                self@.len() == 0,
            decreases self@.len(),
        {
            match self.pop_event() {
                Some(fired) => {
                    if fired == signal_id {
                        found += 1;
                    }
                },
                None => {
                    break ;
                },
            }
        }
        assert(count_signal(self@, signal_id) == 0);
        found
    }

    pub fn len(&self) -> (r: usize)
        ensures
            r == self@.len(),
    {
        self.events.len()
    }

    pub fn is_empty(&self) -> (r: bool)
        ensures
            r == (self@.len() == 0),
    {
        self.events.len() == 0
    }
}

/// How many times `signal_id` occurs among `events`.
pub open spec fn count_signal(events: Seq<u64>, signal_id: u64) -> nat
    decreases events.len(),
{
    if events.len() == 0 {
        0
    } else {
        count_signal(events.drop_first(), signal_id) + if events[0] == signal_id {
            1nat
        } else {
            0nat
        }
    }
}

} // verus!
