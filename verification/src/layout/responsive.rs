//! Responsive breakpoints.
use vstd::prelude::*;

verus! {

/// Width classes of a window, from narrowest to widest.
#[derive(Debug, Clone, Copy, PartialEq, Eq, PartialOrd, Ord, Structural)]
pub enum Breakpoint {
    Mobile,
    Tablet,
    Desktop,
}

} // verus!
