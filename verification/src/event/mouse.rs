//! Mouse events.
use vstd::prelude::*;

verus! {

/// A mouse button.
#[derive(Debug, Clone, Copy, PartialEq, Eq, Structural)]
pub enum MouseButton {
    Left,
    Right,
    Middle,
    Back,
    Forward,
}

/// A mouse event: positions are points of type `P`, scroll amounts vectors
/// of type `V`.
#[derive(Debug, Clone, PartialEq)]
pub enum Event<P, V> {
    Move { position: P },
    Wheel { delta: V },
    Press { position: P, button: MouseButton },
    Release { position: P, button: MouseButton },
}

} // verus!
