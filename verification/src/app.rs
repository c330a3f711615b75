//! An application: its state, and the logic that turns the state into views.
use vstd::prelude::*;

verus! {

/// An application of state `State` whose view is produced by `Logic`.
pub struct App<State, Logic> {
    state: State,
    logic: Logic,
}

impl<State, Logic> App<State, Logic> {
    /// The state the application holds.
    pub closed spec fn spec_state(&self) -> State {
        self.state
    }

    /// The logic the application runs.
    pub closed spec fn spec_logic(&self) -> Logic {
        self.logic
    }

    /// An application of the given state and logic.
    pub fn new(state: State, logic: Logic) -> (a: App<State, Logic>)
        ensures
            a.spec_state() == state,
            a.spec_logic() == logic,
    {
        App { state, logic }
    }

    /// The state and the logic, for the event loop that runs the application.
    pub fn into_parts(self) -> (parts: (State, Logic))
        ensures
            parts.0 == self.spec_state(),
            parts.1 == self.spec_logic(),
    {
        (self.state, self.logic)
    }
}

} // verus!
