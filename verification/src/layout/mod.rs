//! Layout containers.
pub mod dock;
pub mod flex;
pub mod grid;
pub mod responsive;
pub mod split_pane;
pub mod stack;
