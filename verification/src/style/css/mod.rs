//! A native CSS engine for widgets: tokenizer, parser, selector matching,
//! style-sheet cascade and a style cache.
pub mod tokenizer;
pub mod selector;
pub mod properties;
pub mod parser;
pub mod stylesheet;
pub mod cache;
pub mod precedence;
pub mod values;
