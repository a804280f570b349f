//! The catalog of transient forces: forces that act during exactly one
//! simulation tick and are then gone.

use vstd::prelude::*;

verus! {

/// Transient forces waiting for the next tick, in the order they were added.
///
/// The force descriptor `F` is opaque here: the integrator that applies it
/// reads it.
pub struct ActiveForces<F> {
    forces: Vec<F>,
}

impl<F> View for ActiveForces<F> {
    type V = Seq<F>;

    closed spec fn view(&self) -> Seq<F> {
        self.forces@
    }
}

impl<F> ActiveForces<F> {
    /// No force is waiting.
    pub fn new() -> (r: Self)
        ensures
            r@ == Seq::<F>::empty(),
    {
        ActiveForces { forces: Vec::new() }
    }

    /// Queues `f` to act during the next tick.
    pub fn add_force(&mut self, f: F)
        ensures
            final(self)@ == old(self)@.push(f),
    {
        self.forces.push(f);
    }

    /// The number of forces waiting.
    pub fn len(&self) -> (r: usize)
        ensures
            r == self@.len(),
    {
        self.forces.len()
    }

    /// Hands out every waiting force, in the order they were added, for the
    /// current tick to apply. None of them is left for a later tick, however
    /// long this tick lasts.
    pub fn take_for_tick(&mut self) -> (r: Vec<F>)
        ensures
            r@ == old(self)@,
            final(self)@ == Seq::<F>::empty(),
    {
        let mut taken: Vec<F> = Vec::new();
        std::mem::swap(&mut taken, &mut self.forces);
        taken
    }
}

} // verus!
