//! Shared state of a unit.
use vstd::prelude::*;

verus! {

/// Wraps the state that a tool or agent shares between its calls.
#[derive(Debug, Clone, Copy)]
pub struct State<S>(pub S);

impl<S> State<S> {
    /// The wrapped state.
    pub fn get(&self) -> (r: &S)
        ensures
            *r == self.0,
    {
        &self.0
    }

    /// The wrapped state, to change.
    pub fn get_mut(&mut self) -> (r: &mut S)
        ensures
            *r == old(self).0,
            final(self).0 == *final(r),
    {
        &mut self.0
    }
}

} // verus!
