//! Split pane orientation.
use vstd::prelude::*;

verus! {

/// Direction in which a split pane divides its space.
#[derive(Debug, Clone, Copy, PartialEq, Eq, Structural)]
pub enum Axis {
    Horizontal,
    Vertical,
}

} // verus!
