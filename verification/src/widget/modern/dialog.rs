//! Modern dialogs: a panel over a dimmed backdrop.
use vstd::prelude::*;
use iced_core::Pixels;
use crate::measure::{fixed_pixels, pixels_from_units};

verus! {

/// A dialog: an optional title, a body, action buttons in order, the
/// message a press on the backdrop sends, and the panel's largest width
/// (480 unless set).
pub struct ModernDialog<E, Message> {
    pub title: Option<E>,
    pub body: E,
    pub actions: Vec<E>,
    pub on_close: Option<Message>,
    pub max_width: Pixels,
}

/// What a dialog shows: the title, the body and, when there are actions, a
/// row of them, in a panel of the dialog's largest width; a press on the
/// backdrop sends the close message when there is one.
pub struct ModernDialogLayout<E, Message> {
    pub title: Option<E>,
    pub body: E,
    pub action_row: Option<Vec<E>>,
    pub max_width: Pixels,
    pub backdrop_press: Option<Message>,
}

impl<E, Message> ModernDialog<E, Message> {
    /// A dialog around a body, 480 wide at most.
    pub fn new(body: E) -> (r: Self)
        ensures
            r.title is None,
            r.body == body,
            r.actions@.len() == 0,
            r.on_close is None,
            r.max_width == fixed_pixels(480),
    {
        ModernDialog { title: None, body, actions: Vec::new(), on_close: None, max_width: pixels_from_units(480) }
    }

    pub fn title(self, title: E) -> (r: Self)
        ensures
            r == (ModernDialog { title: Some(title), ..self }),
    {
        ModernDialog { title: Some(title), ..self }
    }

    /// Adds an action after the others.
    pub fn action(self, action: E) -> (r: Self)
        ensures
            r == (ModernDialog { actions: r.actions, ..self }),
            r.actions@ == self.actions@.push(action),
    {
        let mut s = self;
        s.actions.push(action);
        s
    }

    pub fn on_close(self, msg: Message) -> (r: Self)
        ensures
            r == (ModernDialog { on_close: Some(msg), ..self }),
    {
        ModernDialog { on_close: Some(msg), ..self }
    }

    pub fn max_width(self, max_width: Pixels) -> (r: Self)
        ensures
            r == (ModernDialog { max_width, ..self }),
    {
        ModernDialog { max_width, ..self }
    }

    /// The dialog's layout.
    pub fn layout(self) -> (r: ModernDialogLayout<E, Message>)
        ensures
            r.title == self.title,
            r.body == self.body,
            self.actions@.len() == 0 ==> r.action_row is None,
            self.actions@.len() > 0 ==> (r.action_row matches Some(a) && a == self.actions),
            r.max_width == self.max_width,
            r.backdrop_press == self.on_close,
    {
        let action_row = if self.actions.len() == 0 { None } else { Some(self.actions) };
        ModernDialogLayout {
            title: self.title,
            body: self.body,
            action_row,
            max_width: self.max_width,
            backdrop_press: self.on_close,
        }
    }
}

} // verus!
