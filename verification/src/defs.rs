//! Shared editor state types: the manipulation mode, the axis lock, and the
//! selection.

use vstd::prelude::*;

verus! {

/// Which manipulation tool is currently driving the selected object.
#[derive(Clone, Copy, PartialEq, Eq, Structural, Debug)]
pub enum ManipulationMode {
    Inactive,
    Move,
    Rotate,
    Scale,
}

impl Default for ManipulationMode {
    fn default() -> (r: Self)
        ensures
            r == ManipulationMode::Inactive,
    {
        ManipulationMode::Inactive
    }
}

/// A world or local axis the current manipulation is restricted to.
#[derive(Clone, Copy, PartialEq, Eq, Structural, Debug)]
pub enum EditorAxis {
    X,
    Y,
    Z,
}

} // verus!
