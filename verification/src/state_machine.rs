//! A holder for the current variant of an enumerated state.

use vstd::prelude::*;

verus! {

/// A finite state machine that always holds exactly one state. The state is
/// only replaced through [`StateMachine::transition_to`].
pub struct StateMachine<T> {
    state: T,
}

impl<T> StateMachine<T> {
    /// The state the machine is in.
    pub closed spec fn spec_current(&self) -> T {
        self.state
    }

    /// A machine resting in `initial_state`.
    pub fn new(initial_state: T) -> (machine: Self)
        ensures
            machine.spec_current() == initial_state,
    {
        Self { state: initial_state }
    }

    /// Replaces the current state by `new_state`, whatever the current state is.
    pub fn transition_to(&mut self, new_state: T)
        ensures
            final(self).spec_current() == new_state,
    {
        self.state = new_state;
    }

    /// The state the machine is in.
    pub fn current_state(&self) -> (state: &T)
        ensures
            *state == self.spec_current(),
    {
        &self.state
    }
}

} // verus!
