//! Touch events.
use vstd::prelude::*;

verus! {

/// A touch event: positions are points of type `P`, movements vectors of
/// type `V`.
#[derive(Debug, Clone, PartialEq)]
pub enum Event<P, V> {
    Start { start: P },
    Move { delta: V },
    End { end: P },
    Cancel,
}

} // verus!
