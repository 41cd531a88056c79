//! Styles of the SoryOS design system.
pub mod css;
