//! Design tokens.
pub mod color;
pub mod motion;
pub mod style_builder;
