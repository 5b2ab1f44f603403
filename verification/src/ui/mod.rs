//! Floating status overlay. The trait is the seam; `state_view` is the pure
//! mapping from State to visuals.

pub mod state_view;

use crate::app::state::State;
use vstd::prelude::*;

verus! {

/// Anything that can show the current state to the user.
pub trait Overlay {
    /// What showing `state` may do: turn the overlay `self` into `after`.
    spec fn renders(&self, state: State, after: &Self) -> bool;

    fn render(&mut self, state: State)
        ensures
            old(self).renders(state, final(self)),
    ;
}

} // verus!
