//! Modal dialogs: open/closed state.
use vstd::prelude::*;

verus! {

/// Whether a modal is shown (kept by the application).
#[derive(Debug, Clone, Copy, PartialEq, Eq, Structural)]
pub enum ModalState {
    /// Modal closed.
    Closed,
    /// Modal open.
    Open,
}

impl Default for ModalState {
    fn default() -> (r: Self)
        ensures
            r == ModalState::Closed,
    {
        ModalState::Closed
    }
}

impl ModalState {
    /// Whether the modal is open.
    pub fn is_open(&self) -> (r: bool)
        ensures
            r == (*self == ModalState::Open),
    {
        match self {
            ModalState::Open => true,
            ModalState::Closed => false,
        }
    }

    /// The open state.
    pub fn open(&self) -> (r: Self)
        ensures
            r == ModalState::Open,
    {
        ModalState::Open
    }

    /// The closed state.
    pub fn close(&self) -> (r: Self)
        ensures
            r == ModalState::Closed,
    {
        ModalState::Closed
    }

    /// The other state.
    pub fn toggle(&self) -> (r: Self)
        ensures
            r.is_open_spec() == !self.is_open_spec(),
    {
        match self {
            ModalState::Open => ModalState::Closed,
            ModalState::Closed => ModalState::Open,
        }
    }

    pub open spec fn is_open_spec(self) -> bool {
        self == ModalState::Open
    }
}

/// What a modal does with its close message: the content is shown unless a
/// close button was asked for without a close message; the close button
/// (sending a copy of the message) is shown when asked for and there is a
/// message; a press on the backdrop sends the message when the modal closes
/// on the backdrop.
pub struct ModalParts<Message> {
    pub content_shown: bool,
    pub close_button: Option<Message>,
    pub backdrop_press: Option<Message>,
}

/// How a modal's close message is wired.
pub fn modal_parts<Message: Clone>(show_close_button: bool, close_on_backdrop: bool, on_close: Option<Message>) -> (r: ModalParts<Message>)
    ensures
        r.content_shown == (!show_close_button || on_close is Some),
        r.close_button is Some <==> (show_close_button && on_close is Some),
        r.close_button matches Some(m) ==> (on_close matches Some(c) && cloned::<Message>(c, m)),
        r.backdrop_press == (if close_on_backdrop { on_close } else { None }),
{
    let close_button = if show_close_button {
        match &on_close {
            Some(m) => Some(m.clone()),
            None => None,
        }
    } else {
        None
    };
    let content_shown = !show_close_button || on_close.is_some();
    let backdrop_press = if close_on_backdrop { on_close } else { None };
    ModalParts { content_shown, close_button, backdrop_press }
}

/// A modal showing a message: its title and body, a row of buttons (a
/// label and the message it sends), the message that closes it, with a
/// close button, 480 wide at most.
pub struct MessageModal<Message> {
    pub title: String,
    pub body: String,
    pub buttons: Vec<(String, Message)>,
    pub on_close: Message,
    pub show_close_button: bool,
    pub max_width: u32,
}

/// A modal with a title and a body, and no buttons.
pub fn simple_modal<Message>(title: &str, body: &str, on_close: Message) -> (r: MessageModal<Message>)
    ensures
        r.title@ == title@,
        r.body@ == body@,
        r.buttons@.len() == 0,
        r.on_close == on_close,
        r.show_close_button,
        r.max_width == 480,
{
    MessageModal {
        title: String::from_str(title),
        body: String::from_str(body),
        buttons: Vec::new(),
        on_close,
        show_close_button: true,
        max_width: 480,
    }
}

/// A modal asking to confirm: a cancel button, then the confirming one; it
/// closes as cancelled.
pub fn confirm_modal<Message: Clone>(
    title: &str,
    body: &str,
    confirm_label: &str,
    on_confirm: Message,
    on_cancel: Message,
) -> (r: MessageModal<Message>)
    ensures
        r.title@ == title@,
        r.body@ == body@,
        r.buttons@.len() == 2,
        r.buttons@[0].0@ == "Annuler"@,
        cloned::<Message>(on_cancel, r.buttons@[0].1),
        r.buttons@[1].0@ == confirm_label@,
        r.buttons@[1].1 == on_confirm,
        r.on_close == on_cancel,
        r.show_close_button,
        r.max_width == 480,
{
    let cancel = on_cancel.clone();
    let mut buttons: Vec<(String, Message)> = Vec::new();
    buttons.push((String::from_str("Annuler"), cancel));
    buttons.push((String::from_str(confirm_label), on_confirm));
    MessageModal {
        title: String::from_str(title),
        body: String::from_str(body),
        buttons,
        on_close: on_cancel,
        show_close_button: true,
        max_width: 480,
    }
}

/// A modal with an information and an `OK` button that closes it.
pub fn info_modal<Message: Clone>(title: &str, body: &str, on_close: Message) -> (r: MessageModal<Message>)
    ensures
        r.title@ == title@,
        r.body@ == body@,
        r.buttons@.len() == 1,
        r.buttons@[0].0@ == "OK"@,
        cloned::<Message>(on_close, r.buttons@[0].1),
        r.on_close == on_close,
        r.show_close_button,
        r.max_width == 480,
{
    let ok = on_close.clone();
    let mut buttons: Vec<(String, Message)> = Vec::new();
    buttons.push((String::from_str("OK"), ok));
    MessageModal {
        title: String::from_str(title),
        body: String::from_str(body),
        buttons,
        on_close,
        show_close_button: true,
        max_width: 480,
    }
}

/// A modal warning before an action: a cancel button, then the action's; it
/// closes as cancelled.
pub fn warning_modal<Message: Clone>(
    title: &str,
    body: &str,
    action_label: &str,
    on_action: Message,
    on_cancel: Message,
) -> (r: MessageModal<Message>)
    ensures
        r.title@ == title@,
        r.body@ == body@,
        r.buttons@.len() == 2,
        r.buttons@[0].0@ == "Annuler"@,
        cloned::<Message>(on_cancel, r.buttons@[0].1),
        r.buttons@[1].0@ == action_label@,
        r.buttons@[1].1 == on_action,
        r.on_close == on_cancel,
        r.show_close_button,
        r.max_width == 480,
{
    confirm_modal(title, body, action_label, on_action, on_cancel)
}

/// Toggling twice gives back the state one started from.
pub proof fn lemma_modal_toggle_involutive(s: ModalState, t: ModalState, u: ModalState)
    requires
        t.is_open_spec() == !s.is_open_spec(),
        u.is_open_spec() == !t.is_open_spec(),
    ensures
        u == s,
{
}

} // verus!
