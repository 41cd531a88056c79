//! Modern switches: a track with a check mark when on, and an optional
//! label before it.
use vstd::prelude::*;
use iced_core::Pixels;
use crate::measure::{fixed_pixels, pixels_from_units};

verus! {

/// A switch: its label, whether it is on, the function that makes the
/// message for a new state, and the track's width (24 unless set).
pub struct ModernSwitch<Message, F> {
    pub label: Option<String>,
    pub toggled: bool,
    pub on_toggle: Option<F>,
    pub size: Pixels,
    pub message: core::marker::PhantomData<Message>,
}

/// What a switch shows: its label before the track, a check mark in the
/// track when on, the track's width, and the message a press sends.
pub struct SwitchLayout<Message> {
    pub label: Option<String>,
    pub checked: bool,
    pub size: Pixels,
    pub on_press: Option<Message>,
}

impl<Message, F: Fn(bool) -> Message> ModernSwitch<Message, F> {
    /// An unlabelled switch that is off, 24 wide.
    pub fn new() -> (r: Self)
        ensures
            r.label is None,
            !r.toggled,
            r.on_toggle is None,
            r.size == fixed_pixels(24),
    {
        ModernSwitch { label: None, toggled: false, on_toggle: None, size: pixels_from_units(24), message: core::marker::PhantomData }
    }

    pub fn label(self, label: &str) -> (r: Self)
        ensures
            r.label matches Some(l) && l@ == label@,
            r.toggled == self.toggled,
            r.on_toggle == self.on_toggle,
            r.size == self.size,
    {
        ModernSwitch { label: Some(String::from_str(label)), ..self }
    }

    pub fn toggled(self, toggled: bool) -> (r: Self)
        ensures
            r.label == self.label,
            r.toggled == toggled,
            r.on_toggle == self.on_toggle,
            r.size == self.size,
    {
        ModernSwitch { toggled, ..self }
    }

    /// Sets the function that makes the message for the state a press
    /// asks for.
    pub fn on_toggle<G: Fn(bool) -> Message>(self, f: G) -> (r: ModernSwitch<Message, G>)
        ensures
            r.label == self.label,
            r.toggled == self.toggled,
            r.on_toggle == Some(f),
            r.size == self.size,
    {
        ModernSwitch { label: self.label, toggled: self.toggled, on_toggle: Some(f), size: self.size, message: core::marker::PhantomData }
    }

    pub fn size(self, size: Pixels) -> (r: Self)
        ensures
            r.label == self.label,
            r.toggled == self.toggled,
            r.on_toggle == self.on_toggle,
            r.size == size,
    {
        ModernSwitch { size, ..self }
    }

    /// The switch's layout: a press asks for the other state.
    pub fn layout(self) -> (r: SwitchLayout<Message>)
        requires
            self.on_toggle matches Some(f) ==> call_requires(f, (!self.toggled,)),
        ensures
            r.label == self.label,
            r.checked == self.toggled,
            r.size == self.size,
            match self.on_toggle {
                Some(f) => r.on_press matches Some(m) && call_ensures(f, (!self.toggled,), m),
                None => r.on_press is None,
            },
    {
        let on_press = match &self.on_toggle {
            Some(f) => Some(f(!self.toggled)),
            None => None,
        };
        SwitchLayout { label: self.label, checked: self.toggled, size: self.size, on_press }
    }
}

} // verus!
