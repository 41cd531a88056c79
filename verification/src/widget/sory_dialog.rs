//! Dialog panels of the SoryOS look: a title, an icon, a body, controls
//! and up to three action buttons.
use vstd::prelude::*;
use iced_core::{Length, Pixels};
use crate::measure::{fixed_length, length_from_units};

verus! {

/// A new, empty dialog.
pub fn sory_dialog<E>() -> (r: SoryDialog<E>)
    ensures
        r.is_empty(),
{
    SoryDialog::new()
}

/// A dialog under construction.
pub struct SoryDialog<E> {
    pub title: Option<String>,
    pub icon: Option<E>,
    pub body: Option<String>,
    pub controls: Vec<E>,
    pub primary_action: Option<E>,
    pub secondary_action: Option<E>,
    pub tertiary_action: Option<E>,
    pub width: Option<Length>,
    pub height: Option<Length>,
    pub max_width: Option<Pixels>,
    pub max_height: Option<Pixels>,
    pub animated: bool,
}

impl<E> SoryDialog<E> {
    /// Nothing set, no controls, and the fade-in animation on.
    pub open spec fn is_empty(&self) -> bool {
        &&& self.title is None
        &&& self.icon is None
        &&& self.body is None
        &&& self.controls@.len() == 0
        &&& self.primary_action is None
        &&& self.secondary_action is None
        &&& self.tertiary_action is None
        &&& self.width is None
        &&& self.height is None
        &&& self.max_width is None
        &&& self.max_height is None
        &&& self.animated
    }

    /// An empty dialog.
    pub fn new() -> (r: Self)
        ensures
            r.is_empty(),
    {
        SoryDialog {
            title: None,
            icon: None,
            body: None,
            controls: Vec::new(),
            primary_action: None,
            secondary_action: None,
            tertiary_action: None,
            width: None,
            height: None,
            max_width: None,
            max_height: None,
            animated: true,
        }
    }

    /// Sets the title.
    pub fn title(self, title: &str) -> (r: Self)
        ensures
            r == (SoryDialog { title: r.title, ..self }),
            r.title matches Some(t) && t@ == title@,
    {
        SoryDialog { title: Some(String::from_str(title)), ..self }
    }

    /// Sets the icon.
    pub fn icon(self, icon: E) -> (r: Self)
        ensures
            r == (SoryDialog { icon: Some(icon), ..self }),
    {
        SoryDialog { icon: Some(icon), ..self }
    }

    /// Sets the body text.
    pub fn body(self, body: &str) -> (r: Self)
        ensures
            r == (SoryDialog { body: r.body, ..self }),
            r.body matches Some(b) && b@ == body@,
    {
        SoryDialog { body: Some(String::from_str(body)), ..self }
    }

    /// Adds a control (an input, a toggle, ...) after the others.
    pub fn control(self, control: E) -> (r: Self)
        ensures
            r == (SoryDialog { controls: r.controls, ..self }),
            r.controls@ == self.controls@.push(control),
    {
        let mut s = self;
        s.controls.push(control);
        s
    }

    /// Sets the primary action's button.
    pub fn primary_action(self, button: E) -> (r: Self)
        ensures
            r == (SoryDialog { primary_action: Some(button), ..self }),
    {
        SoryDialog { primary_action: Some(button), ..self }
    }

    /// Sets the secondary action's button.
    pub fn secondary_action(self, button: E) -> (r: Self)
        ensures
            r == (SoryDialog { secondary_action: Some(button), ..self }),
    {
        SoryDialog { secondary_action: Some(button), ..self }
    }

    /// Sets the tertiary action's button.
    pub fn tertiary_action(self, button: E) -> (r: Self)
        ensures
            r == (SoryDialog { tertiary_action: Some(button), ..self }),
    {
        SoryDialog { tertiary_action: Some(button), ..self }
    }

    /// Sets the width.
    pub fn width(self, width: Length) -> (r: Self)
        ensures
            r == (SoryDialog { width: Some(width), ..self }),
    {
        SoryDialog { width: Some(width), ..self }
    }

    /// Sets the height.
    pub fn height(self, height: Length) -> (r: Self)
        ensures
            r == (SoryDialog { height: Some(height), ..self }),
    {
        SoryDialog { height: Some(height), ..self }
    }

    /// Sets the largest width.
    pub fn max_width(self, max_width: Pixels) -> (r: Self)
        ensures
            r == (SoryDialog { max_width: Some(max_width), ..self }),
    {
        SoryDialog { max_width: Some(max_width), ..self }
    }

    /// Sets the largest height.
    pub fn max_height(self, max_height: Pixels) -> (r: Self)
        ensures
            r == (SoryDialog { max_height: Some(max_height), ..self }),
    {
        SoryDialog { max_height: Some(max_height), ..self }
    }

    /// Turns the fade-in animation on or off.
    pub fn animated(self, animated: bool) -> (r: Self)
        ensures
            r == (SoryDialog { animated, ..self }),
    {
        SoryDialog { animated, ..self }
    }
}

/// One piece of a dialog's content column.
pub enum DialogPiece<E> {
    Title(String),
    Body(String),
    Control(E),
    /// The narrow gap between a title and the body.
    NarrowGap,
    /// The gap before a control.
    Gap,
}

/// What a dialog shows: its content column, the icon beside it, the action
/// buttons (the tertiary one alone on the left, then the secondary and the
/// primary one on the right), and the panel's size and animation.
pub struct DialogLayout<E> {
    pub content: Vec<DialogPiece<E>>,
    pub icon: Option<E>,
    pub tertiary_action: Option<E>,
    pub secondary_action: Option<E>,
    pub primary_action: Option<E>,
    pub width: Length,
    pub height: Option<Length>,
    pub max_width: Option<Pixels>,
    pub max_height: Option<Pixels>,
    pub animated: bool,
}

/// The controls in order, each after a gap unless it is the first piece of
/// the column.
pub open spec fn controls_pieces<E>(cs: Seq<E>, started: bool) -> Seq<DialogPiece<E>>
    decreases cs.len(),
{
    if cs.len() == 0 {
        Seq::empty()
    } else {
        let gap = if started || cs.len() > 1 { seq![DialogPiece::Gap] } else { Seq::empty() };
        controls_pieces(cs.drop_last(), started) + gap + seq![DialogPiece::Control(cs.last())]
    }
}

/// The content column: the title, the body (after a narrow gap when there is
/// a title), then the controls.
pub open spec fn dialog_content<E>(title: Option<String>, body: Option<String>, controls: Seq<E>) -> Seq<DialogPiece<E>> {
    let head = match title {
        Some(t) => seq![DialogPiece::Title(t)],
        None => Seq::empty(),
    };
    let mid = match body {
        Some(b) => if title is Some {
            seq![DialogPiece::NarrowGap, DialogPiece::Body(b)]
        } else {
            seq![DialogPiece::Body(b)]
        },
        None => Seq::empty(),
    };
    head + mid + controls_pieces(controls, title is Some || body is Some)
}

impl<E> SoryDialog<E> {
    /// The dialog's layout; it is 570 wide unless a width was set.
    pub fn layout(self) -> (r: DialogLayout<E>)
        ensures
            r.content@ == dialog_content(self.title, self.body, self.controls@),
            r.icon == self.icon,
            r.tertiary_action == self.tertiary_action,
            r.secondary_action == self.secondary_action,
            r.primary_action == self.primary_action,
            r.width == (match self.width {
                Some(w) => w,
                None => fixed_length(570),
            }),
            r.height == self.height,
            r.max_width == self.max_width,
            r.max_height == self.max_height,
            r.animated == self.animated,
    {
        let ghost title0 = self.title;
        let ghost body0 = self.body;
        let has_title = self.title.is_some();
        let mut content: Vec<DialogPiece<E>> = Vec::new();
        match self.title {
            Some(t) => content.push(DialogPiece::Title(t)),
            None => {},
        }
        let has_body = self.body.is_some();
        match self.body {
            Some(b) => {
                if has_title {
                    content.push(DialogPiece::NarrowGap);
                }
                content.push(DialogPiece::Body(b));
            },
            None => {},
        }
        let started = has_title || has_body;
        let ghost head = content@;
        proof {
            let h = match title0 {
                Some(t) => seq![DialogPiece::Title(t)],
                None => Seq::empty(),
            };
            let m = match body0 {
                Some(b) => if title0 is Some {
                    seq![DialogPiece::NarrowGap, DialogPiece::Body(b)]
                } else {
                    seq![DialogPiece::Body(b)]
                },
                None => Seq::empty(),
            };
            assert(head =~= h + m);
        }
        let ghost all = self.controls@;
        let mut rest = self.controls;
        let mut n: usize = 0;
        proof {
            assert(content@ =~= head + controls_pieces(all.take(0), started));
            assert(all.len() == rest.len());
        }
        while rest.len() > 0
            invariant
                n + rest@.len() == all.len(),
                all.len() <= usize::MAX,
                rest@ == all.skip(n as int),
                content@ == head + controls_pieces(all.take(n as int), started),
            decreases rest.len(),
        {
            let c = rest.remove(0);
            proof {
                assert(c == all[n as int]) by {
                    assert(all.skip(n as int)[0] == all[n as int]);
                }
                assert(rest@ =~= all.skip(n + 1));
                assert(all.take(n + 1).drop_last() =~= all.take(n as int));
                assert(all.take(n + 1).last() == c);
            }
            let ghost before = content@;
            if started || n > 0 {
                content.push(DialogPiece::Gap);
            }
            content.push(DialogPiece::Control(c));
            proof {
                let gap = if started || n + 1 > 1 { seq![DialogPiece::Gap] } else { Seq::<DialogPiece<E>>::empty() };
                assert(content@ =~= before + gap + seq![DialogPiece::Control(c)]);
                assert(controls_pieces(all.take(n + 1), started)
                    == controls_pieces(all.take(n as int), started) + gap + seq![DialogPiece::Control(c)]);
            }
            n = n + 1;
        }
        proof {
            assert(all.take(all.len() as int) =~= all);
        }
        let width = match self.width {
            Some(w) => w,
            None => length_from_units(570),
        };
        DialogLayout {
            content,
            icon: self.icon,
            tertiary_action: self.tertiary_action,
            secondary_action: self.secondary_action,
            primary_action: self.primary_action,
            width,
            height: self.height,
            max_width: self.max_width,
            max_height: self.max_height,
            animated: self.animated,
        }
    }
}

impl<E> Default for SoryDialog<E> {
    fn default() -> (r: Self)
        ensures
            r.is_empty(),
    {
        Self::new()
    }
}

} // verus!
