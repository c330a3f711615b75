//! Window events.
use vstd::prelude::*;
use crate::event::mouse;
use crate::event::touch;
use crate::window::WindowSize;

verus! {

/// An event of a window: positions are points of type `P`, movements
/// vectors of type `V`, and scale factors of type `S`.
#[derive(Debug, Clone, PartialEq)]
pub enum Event<P, V, S> {
    Resized(WindowSize),
    CloseRequested,
    ScaleFactorChanged(S),
    RedrawRequested,
    Mouse(mouse::Event<P, V>),
    Touch(touch::Event<P, V>),
}

} // verus!
