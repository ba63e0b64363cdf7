use crate::state::State;
use vstd::prelude::*;

verus! {

/// A state that is overwritten with zeros when it leaves scope.
///
/// A plain [`State`] is dropped as it is. Callers that hold secret material
/// in a state wrap it here, so that the five words are erased on every path
/// out of the scope that owns it.
#[derive(Debug)]
pub struct ScopedState {
    state: State,
}

impl View for ScopedState {
    type V = Seq<u64>;

    /// The five words of the state that is held.
    closed spec fn view(&self) -> Seq<u64> {
        self.state@
    }
}

impl ScopedState {
    /// Takes a state into the scope.
    pub fn new(state: State) -> (scoped: Self)
        ensures
            scoped@ == state@,
    {
        ScopedState { state }
    }

    /// The state, for reading.
    pub fn state(&self) -> (state: &State)
        ensures
            state@ == self@,
    {
        &self.state
    }

    /// The state, for permuting and for writing words.
    pub fn state_mut(&mut self) -> (state: &mut State)
        ensures
            state@ == old(self)@,
            final(self)@ == final(state)@,
    {
        &mut self.state
    }
}

impl Drop for ScopedState {
    /// Overwrites the five words with zeros as the state leaves scope.
    fn drop(&mut self)
        ensures
            final(self)@ == crate::state::zero_words(),
        opens_invariants none
        no_unwind
    {
        self.state.zeroize();
    }
}

impl zeroize::ZeroizeOnDrop for ScopedState {

}

} // verus!
