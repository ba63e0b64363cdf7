use vstd::prelude::*;

pub mod constants;
pub mod permutation;
pub mod round;
pub mod sbox;
pub mod scoped;
pub mod state;

pub use constants::{pad, round_constant};
pub use round::round;
pub use scoped::ScopedState;
pub use state::{Error, State};

verus! {

} // verus!
