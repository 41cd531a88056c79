//! Search bars.
use vstd::prelude::*;
use iced_core::Length;
use crate::measure::length_fill;

verus! {

/// A search field: its text, placeholder, width, and the function `F`
/// that makes a `Message` from each edit.
pub struct ModernSearchBar<Message, F> {
    pub value: String,
    pub on_input: Option<F>,
    pub message: core::marker::PhantomData<Message>,
    pub placeholder: String,
    pub width: Length,
}

impl<Message, F> ModernSearchBar<Message, F> {
    /// An empty, full-width search field with the placeholder "Rechercher...".
    pub fn new() -> (r: Self)
        ensures
            r.value@.len() == 0,
            r.on_input is None,
            r.placeholder@ == seq!['R', 'e', 'c', 'h', 'e', 'r', 'c', 'h', 'e', 'r', '.', '.', '.'],
    {
        proof {
            reveal_strlit("Rechercher...");
            assert("Rechercher..."@ =~= seq!['R', 'e', 'c', 'h', 'e', 'r', 'c', 'h', 'e', 'r', '.', '.', '.']);
        }
        ModernSearchBar {
            value: String::new(),
            on_input: None,
            message: core::marker::PhantomData,
            placeholder: String::from_str("Rechercher..."),
            width: length_fill(),
        }
    }

    pub fn value(self, value: &str) -> (r: Self)
        ensures
            r.value@ == value@,
            r.on_input == self.on_input,
            r.placeholder == self.placeholder,
            r.width == self.width,
    {
        ModernSearchBar { value: String::from_str(value), ..self }
    }

    /// Sets the function that turns the field's text into a message.
    pub fn on_input<G: Fn(String) -> Message>(self, f: G) -> (r: ModernSearchBar<Message, G>)
        ensures
            r.value == self.value,
            r.on_input == Some(f),
            r.placeholder == self.placeholder,
            r.width == self.width,
    {
        ModernSearchBar {
            value: self.value,
            on_input: Some(f),
            message: core::marker::PhantomData,
            placeholder: self.placeholder,
            width: self.width,
        }
    }

    pub fn placeholder(self, placeholder: &str) -> (r: Self)
        ensures
            r.value == self.value,
            r.on_input == self.on_input,
            r.placeholder@ == placeholder@,
            r.width == self.width,
    {
        ModernSearchBar { placeholder: String::from_str(placeholder), ..self }
    }

    pub fn width(self, width: Length) -> (r: Self)
        ensures
            r.value == self.value,
            r.on_input == self.on_input,
            r.placeholder == self.placeholder,
            r.width == width,
    {
        ModernSearchBar { width, ..self }
    }
}

} // verus!
