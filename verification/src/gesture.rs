//! Bookkeeping for the parameter gesture protocol: an interactive edit of a parameter is
//! announced by a begin, carries any number of value changes, and is closed by an end.
//!
//! The checker only observes. It reports calls that break the protocol and never keeps a
//! notification from reaching the host.

use std::collections::HashMap;
use vstd::prelude::*;

verus! {

broadcast use vstd::std_specs::hash::group_hash_axioms;

/// Where a parameter stands in the gesture protocol.
#[derive(Clone, Copy, Debug, PartialEq, Eq, Structural)]
pub enum GestureState {
    Idle,
    InGesture,
}

/// The state of parameter `id` in a gesture table. A parameter without an entry is idle.
pub open spec fn gesture_state(table: Map<u32, GestureState>, id: u32) -> GestureState {
    if table.contains_key(id) {
        table[id]
    } else {
        GestureState::Idle
    }
}

/// The table after a begin for `id`: the parameter is in a gesture, whatever it was before.
pub open spec fn after_begin(table: Map<u32, GestureState>, id: u32) -> Map<u32, GestureState> {
    table.insert(id, GestureState::InGesture)
}

/// The table after an end for `id`: a parameter that has an entry is idle again; one that was
/// never begun gets no entry.
pub open spec fn after_end(table: Map<u32, GestureState>, id: u32) -> Map<u32, GestureState> {
    if table.contains_key(id) {
        table.insert(id, GestureState::Idle)
    } else {
        table
    }
}

/// Whether a begin for `id` breaks the protocol: the parameter is already in a gesture.
pub open spec fn begin_violates(table: Map<u32, GestureState>, id: u32) -> bool {
    gesture_state(table, id) == GestureState::InGesture
}

/// Whether a value change or an end for `id` breaks the protocol: no gesture was begun.
pub open spec fn needs_begin(table: Map<u32, GestureState>, id: u32) -> bool {
    gesture_state(table, id) == GestureState::Idle
}

/// One gesture state per parameter identifier, created when the parameter is first begun.
pub struct ParamGestureChecker {
    states: HashMap<u32, GestureState>,
}

impl View for ParamGestureChecker {
    type V = Map<u32, GestureState>;

    closed spec fn view(&self) -> Map<u32, GestureState> {
        self.states@
    }
}

impl ParamGestureChecker {
    /// A checker that has seen no parameter yet.
    pub fn new() -> (checker: Self)
        ensures
            checker@ == Map::<u32, GestureState>::empty(),
    {
        ParamGestureChecker { states: HashMap::new() }
    }

    /// The state of the parameter `param_id`.
    pub fn state(&self, param_id: u32) -> (state: GestureState)
        ensures
            state == gesture_state(self@, param_id),
    {
        match self.states.get(&param_id) {
            Some(state) => *state,
            None => GestureState::Idle,
        }
    }

    /// Records the start of a gesture on `param_id`. Returns whether the call broke the
    /// protocol, which it does when a gesture on that parameter is already open.
    pub fn begin_set_parameter(&mut self, param_id: u32) -> (violation: bool)
        ensures
            violation == begin_violates(old(self)@, param_id),
            final(self)@ == after_begin(old(self)@, param_id),
    {
        let violation = match self.state(param_id) {
            GestureState::InGesture => true,
            GestureState::Idle => false,
        };
        self.states.insert(param_id, GestureState::InGesture);
        violation
    }

    /// Checks a value change for `param_id`. Returns whether the call broke the protocol,
    /// which it does when no gesture on that parameter is open. The table is not changed.
    pub fn set_parameter(&self, param_id: u32) -> (violation: bool)
        ensures
            violation == needs_begin(self@, param_id),
    {
        match self.state(param_id) {
            GestureState::InGesture => false,
            GestureState::Idle => true,
        }
    }

    /// Records the end of the gesture on `param_id`. Returns whether the call broke the
    /// protocol, which it does when no gesture on that parameter is open.
    pub fn end_set_parameter(&mut self, param_id: u32) -> (violation: bool)
        ensures
            violation == needs_begin(old(self)@, param_id),
            final(self)@ == after_end(old(self)@, param_id),
    {
        match self.state(param_id) {
            GestureState::InGesture => {
                self.states.insert(param_id, GestureState::Idle);
                false
            },
            GestureState::Idle => true,
        }
    }
}

} // verus!
