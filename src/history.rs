//! A bounded log of the most recent control events.

use std::collections::VecDeque;
use vstd::prelude::*;

verus! {

/// How many of `held` events are dropped when room is made for `incoming`
/// more in a log bounded by `max_len`: the oldest go first, and at most all
/// of them.
pub open spec fn dropped_count(held: nat, incoming: nat, max_len: nat) -> nat {
    if held + incoming <= max_len {
        0
    } else if incoming >= max_len {
        held
    } else {
        (held + incoming - max_len) as nat
    }
}

/// The most recent control events, oldest first.
///
/// Before each batch is appended, the oldest events are dropped so that the
/// log and the batch together fit the bound. A single batch larger than the
/// bound is kept whole, so the log then holds more than the bound until the
/// next batch.
pub struct ControlHistory<E> {
    queue: VecDeque<E>,
    max_len: usize,
}

impl<E> View for ControlHistory<E> {
    type V = Seq<E>;

    closed spec fn view(&self) -> Seq<E> {
        self.queue@
    }
}

impl<E> Default for ControlHistory<E> {
    fn default() -> (r: Self)
        ensures
            r@ == Seq::<E>::empty(),
            r.max_len() == 128,
    {
        Self::with_capacity(128)
    }
}

impl<E> ControlHistory<E> {
    /// The bound given at construction.
    pub closed spec fn max_len(&self) -> nat {
        self.max_len as nat
    }

    /// An empty log with bound `capacity`: appending a batch first drops the
    /// oldest events so that the log and the batch fit `capacity`, or all of
    /// them when the batch alone is larger.
    pub fn with_capacity(capacity: usize) -> (r: Self)
        ensures
            r@ == Seq::<E>::empty(),
            r.max_len() == capacity,
    {
        ControlHistory { queue: VecDeque::with_capacity(capacity), max_len: capacity }
    }

    /// The events held, oldest first.
    pub fn events(&self) -> (r: &VecDeque<E>)
        ensures
            r@ == self@,
    {
        &self.queue
    }

    /// Appends `events`, first dropping as many of the oldest held events as
    /// the bound asks for to make room for them.
    pub fn extend(&mut self, events: Vec<E>)
        ensures
            final(self).max_len() == old(self).max_len(),
            final(self)@ == old(self)@.skip(
                dropped_count(old(self)@.len(), events@.len(), old(self).max_len()) as int,
            ) + events@,
    {
        let n = events.len();
        self.extend_with_len(events, n);
    }

    /// Appends `events`, first dropping as many of the oldest held events as
    /// the bound asks for to make room for `len` new ones.
    pub fn extend_with_len(&mut self, events: Vec<E>, len: usize)
        ensures
            final(self).max_len() == old(self).max_len(),
            final(self)@ == old(self)@.skip(
                dropped_count(old(self)@.len(), len as nat, old(self).max_len()) as int,
            ) + events@,
    {
        let held = self.queue.len();
        let drop: usize = if len >= self.max_len {
            held
        } else if held > self.max_len - len {
            held - (self.max_len - len)
        } else {
            0
        };
        assert(drop == dropped_count(held as nat, len as nat, self.max_len as nat));
        let ghost start = self.queue@;
        let mut i: usize = 0;
        while i < drop
            invariant
                i <= drop <= held,
                held == start.len(),
                self.queue@ == start.skip(i as int),
                self.max_len == old(self).max_len,
                start == old(self)@,
            decreases drop - i,
        {
            self.queue.pop_front();
            i = i + 1;
            assert(self.queue@ =~= start.skip(i as int));
        }
        let ghost kept = self.queue@;
        let ghost all = events@;
        let mut rest = events;
        while rest.len() > 0
            invariant
                rest@.len() <= all.len(),
                rest@ == all.skip(all.len() - rest@.len()),
                self.queue@ == kept + all.take(all.len() - rest@.len()),
                self.max_len == old(self).max_len,
            decreases rest.len(),
        {
            let e = rest.remove(0);
            self.queue.push_back(e);
            assert(rest@ =~= all.skip(all.len() - rest@.len()));
            assert(self.queue@ =~= kept + all.take(all.len() - rest@.len()));
        }
        assert(all.take(all.len() as int) =~= all);
    }
}

} // verus!
