//! Toast notifications: variants, items, and a manager that keeps a
//! bounded stack of them.
use vstd::prelude::*;

verus! {

/// Toast variants.
#[derive(Debug, Clone, Copy, PartialEq, Eq, Structural)]
pub enum ToastVariant {
    /// Information (blue).
    Info,
    /// Success (green).
    Success,
    /// Warning (orange).
    Warning,
    /// Error (red).
    Error,
}

impl Default for ToastVariant {
    fn default() -> (r: Self)
        ensures
            r == ToastVariant::Info,
    {
        ToastVariant::Info
    }
}

/// Where toasts are shown on screen.
#[derive(Debug, Clone, Copy, PartialEq, Eq, Structural)]
pub enum ToastPosition {
    TopRight,
    TopLeft,
    TopCenter,
    BottomRight,
    BottomLeft,
    BottomCenter,
}

impl Default for ToastPosition {
    fn default() -> (r: Self)
        ensures
            r == ToastPosition::BottomRight,
    {
        ToastPosition::BottomRight
    }
}

/// Identifier of a toast.
#[derive(Debug, Clone, Copy, PartialEq, Eq, Hash, Structural)]
pub struct ToastId(pub usize);

/// A toast's action button.
#[derive(Debug, Clone)]
pub struct ToastAction<Message> {
    pub label: String,
    pub on_press: Message,
}

/// One toast.
#[derive(Debug, Clone)]
pub struct ToastItem<Message> {
    pub id: ToastId,
    pub variant: ToastVariant,
    pub title: String,
    pub description: Option<String>,
    pub action: Option<ToastAction<Message>>,
    pub dismissible: bool,
}

impl<Message> ToastItem<Message> {
    /// A dismissible toast with a title, no description and no action.
    pub fn new(id: usize, variant: ToastVariant, title: &str) -> (r: Self)
        ensures
            r.id == ToastId(id),
            r.variant == variant,
            r.title@ == title@,
            r.description is None,
            r.action is None,
            r.dismissible,
    {
        ToastItem {
            id: ToastId(id),
            variant,
            title: String::from_str(title),
            description: None,
            action: None,
            dismissible: true,
        }
    }

    /// Adds a description.
    pub fn description(self, desc: &str) -> (r: Self)
        ensures
            r.description matches Some(d) && d@ == desc@,
            r.id == self.id,
            r.variant == self.variant,
            r.title == self.title,
            r.action == self.action,
            r.dismissible == self.dismissible,
    {
        ToastItem { description: Some(String::from_str(desc)), ..self }
    }

    /// Adds an action button.
    pub fn action(self, label: &str, on_press: Message) -> (r: Self)
        ensures
            r.action matches Some(a) && a.label@ == label@ && a.on_press == on_press,
            r.id == self.id,
            r.variant == self.variant,
            r.title == self.title,
            r.description == self.description,
            r.dismissible == self.dismissible,
    {
        ToastItem { action: Some(ToastAction { label: String::from_str(label), on_press }), ..self }
    }

    /// Removes the close button.
    pub fn not_dismissible(self) -> (r: Self)
        ensures
            !r.dismissible,
            r.id == self.id,
            r.variant == self.variant,
            r.title == self.title,
            r.description == self.description,
            r.action == self.action,
    {
        ToastItem { dismissible: false, ..self }
    }
}

/// A quick information toast.
pub fn toast_info<Message>(id: usize, title: &str, description: &str) -> (r: ToastItem<Message>)
    ensures
        r.id == ToastId(id),
        r.variant == ToastVariant::Info,
        r.title@ == title@,
        r.description matches Some(d) && d@ == description@,
        r.action is None,
        r.dismissible,
{
    ToastItem::new(id, ToastVariant::Info, title).description(description)
}

/// A quick success toast.
pub fn toast_success<Message>(id: usize, title: &str, description: &str) -> (r: ToastItem<Message>)
    ensures
        r.id == ToastId(id),
        r.variant == ToastVariant::Success,
        r.title@ == title@,
        r.description matches Some(d) && d@ == description@,
        r.action is None,
        r.dismissible,
{
    ToastItem::new(id, ToastVariant::Success, title).description(description)
}

/// A quick warning toast.
pub fn toast_warning<Message>(id: usize, title: &str, description: &str) -> (r: ToastItem<Message>)
    ensures
        r.id == ToastId(id),
        r.variant == ToastVariant::Warning,
        r.title@ == title@,
        r.description matches Some(d) && d@ == description@,
        r.action is None,
        r.dismissible,
{
    ToastItem::new(id, ToastVariant::Warning, title).description(description)
}

/// A quick error toast.
pub fn toast_error<Message>(id: usize, title: &str, description: &str) -> (r: ToastItem<Message>)
    ensures
        r.id == ToastId(id),
        r.variant == ToastVariant::Error,
        r.title@ == title@,
        r.description matches Some(d) && d@ == description@,
        r.action is None,
        r.dismissible,
{
    ToastItem::new(id, ToastVariant::Error, title).description(description)
}

/// What a toast shows: the style and icon of its variant, its title, its
/// description and action when it has them, and a close button when it can
/// be dismissed and a dismiss message is given.
#[derive(Debug, Clone)]
pub struct ToastPieces<Message> {
    pub variant: ToastVariant,
    pub icon: char,
    pub title: String,
    pub description: Option<String>,
    pub action: Option<ToastAction<Message>>,
    /// The message of the close button, when there is one.
    pub close: Option<Message>,
}

/// The icon of each variant: `ℹ`, `✓`, `⚠` and `✕`.
pub open spec fn toast_icon(v: ToastVariant) -> char {
    match v {
        ToastVariant::Info => '\u{2139}',
        ToastVariant::Success => '\u{2713}',
        ToastVariant::Warning => '\u{26a0}',
        ToastVariant::Error => '\u{2715}',
    }
}

pub open spec fn toast_pieces_spec<M>(toast: ToastItem<M>, on_dismiss: Option<M>) -> ToastPieces<M> {
    ToastPieces {
        variant: toast.variant,
        icon: toast_icon(toast.variant),
        title: toast.title,
        description: toast.description,
        action: toast.action,
        close: if toast.dismissible { on_dismiss } else { None },
    }
}

/// The pieces of a toast's view.
pub fn toast_content<Message>(toast: ToastItem<Message>, on_dismiss: Option<Message>) -> (r: ToastPieces<Message>)
    ensures
        r == toast_pieces_spec(toast, on_dismiss),
{
    let icon = match toast.variant {
        ToastVariant::Info => '\u{2139}',
        ToastVariant::Success => '\u{2713}',
        ToastVariant::Warning => '\u{26a0}',
        ToastVariant::Error => '\u{2715}',
    };
    let close = if toast.dismissible { on_dismiss } else { None };
    ToastPieces {
        variant: toast.variant,
        icon,
        title: toast.title,
        description: toast.description,
        action: toast.action,
        close,
    }
}

/// How a stack of toasts lines up across the screen.
#[derive(Debug, Clone, Copy, PartialEq, Eq, Structural)]
pub enum ToastAlign {
    Start,
    Center,
    End,
}

/// The space between a stack of toasts and the screen's edges.
#[derive(Debug, Clone, Copy, PartialEq, Eq, Structural)]
pub struct ToastInsets {
    pub top: u16,
    pub right: u16,
    pub bottom: u16,
    pub left: u16,
}

/// Toasts on the right line up at the end, those on the left at the start,
/// the others in the middle.
pub open spec fn position_align(p: ToastPosition) -> ToastAlign {
    match p {
        ToastPosition::TopRight | ToastPosition::BottomRight => ToastAlign::End,
        ToastPosition::TopLeft | ToastPosition::BottomLeft => ToastAlign::Start,
        ToastPosition::TopCenter | ToastPosition::BottomCenter => ToastAlign::Center,
    }
}

/// A gap of 20 on the sides of the corner the toasts stand in.
pub open spec fn position_insets(p: ToastPosition) -> ToastInsets {
    match p {
        ToastPosition::TopRight => ToastInsets { top: 20, right: 20, bottom: 0, left: 0 },
        ToastPosition::TopLeft => ToastInsets { top: 20, right: 0, bottom: 0, left: 20 },
        ToastPosition::TopCenter => ToastInsets { top: 20, right: 0, bottom: 0, left: 0 },
        ToastPosition::BottomRight => ToastInsets { top: 0, right: 20, bottom: 20, left: 0 },
        ToastPosition::BottomLeft => ToastInsets { top: 0, right: 0, bottom: 20, left: 20 },
        ToastPosition::BottomCenter => ToastInsets { top: 0, right: 0, bottom: 20, left: 0 },
    }
}

/// Toasts line up on the side they are set off from: where the inset is on
/// the right only (a right-hand position) they line up at the end, where it
/// is on the left only at the start, and where it is on neither side (a
/// centred position) in the middle. Toasts at the top are set off from the
/// top, those at the bottom from the bottom, by 20.
pub proof fn lemma_toast_align_follows_side(p: ToastPosition)
    ensures
        (p == ToastPosition::TopRight || p == ToastPosition::BottomRight)
            ==> position_align(p) == ToastAlign::End && position_insets(p).right == 20 && position_insets(p).left == 0,
        (p == ToastPosition::TopLeft || p == ToastPosition::BottomLeft)
            ==> position_align(p) == ToastAlign::Start && position_insets(p).left == 20 && position_insets(p).right == 0,
        (p == ToastPosition::TopCenter || p == ToastPosition::BottomCenter)
            ==> position_align(p) == ToastAlign::Center && position_insets(p).left == 0 && position_insets(p).right == 0,
        (position_align(p) == ToastAlign::End) <==> (position_insets(p).right > 0 && position_insets(p).left == 0),
        (position_align(p) == ToastAlign::Start) <==> (position_insets(p).left > 0 && position_insets(p).right == 0),
        (position_align(p) == ToastAlign::Center) <==> (position_insets(p).left == 0 && position_insets(p).right == 0),
        (p == ToastPosition::TopRight || p == ToastPosition::TopLeft || p == ToastPosition::TopCenter)
            ==> position_insets(p).top == 20 && position_insets(p).bottom == 0,
        (p == ToastPosition::BottomRight || p == ToastPosition::BottomLeft || p == ToastPosition::BottomCenter)
            ==> position_insets(p).bottom == 20 && position_insets(p).top == 0,
{
}

/// A stack of toasts on screen, in the order given.
#[derive(Debug, Clone)]
pub struct ToastStack<Message> {
    pub toasts: Vec<ToastPieces<Message>>,
    pub align: ToastAlign,
    pub insets: ToastInsets,
}

/// `p` shows a copy of toast `t`, whose close button sends what `on_dismiss`
/// gives for the toast's id.
pub open spec fn shows_toast<M: Clone, F: Fn(ToastId) -> M>(t: ToastItem<M>, p: ToastPieces<M>, on_dismiss: F) -> bool {
    &&& p.variant == t.variant
    &&& p.icon == toast_icon(t.variant)
    &&& p.title@ == t.title@
    &&& opt_view(p.description) == opt_view(t.description)
    &&& match (t.action, p.action) {
        (None, None) => true,
        (Some(a), Some(b)) => b.label@ == a.label@ && cloned::<M>(a.on_press, b.on_press),
        _ => false,
    }
    &&& if t.dismissible {
        p.close matches Some(m) && call_ensures(on_dismiss, (t.id,), m)
    } else {
        p.close is None
    }
}

pub open spec fn opt_view(o: Option<String>) -> Option<Seq<char>> {
    match o {
        Some(s) => Some(s@),
        None => None,
    }
}

fn copy_toast<Message: Clone>(t: &ToastItem<Message>) -> (r: ToastItem<Message>)
    ensures
        r.id == t.id,
        r.variant == t.variant,
        r.title@ == t.title@,
        opt_view(r.description) == opt_view(t.description),
        match (t.action, r.action) {
            (None, None) => true,
            (Some(a), Some(b)) => b.label@ == a.label@ && cloned::<Message>(a.on_press, b.on_press),
            _ => false,
        },
        r.dismissible == t.dismissible,
{
    let description = match &t.description {
        Some(d) => Some(d.clone()),
        None => None,
    };
    let action = match &t.action {
        Some(a) => Some(ToastAction { label: a.label.clone(), on_press: a.on_press.clone() }),
        None => None,
    };
    ToastItem { id: t.id, variant: t.variant, title: t.title.clone(), description, action, dismissible: t.dismissible }
}

/// The view of stacked toasts: each toast in order, with a close button
/// that sends `on_dismiss` of its id, lined up and set off from the edges
/// by the position.
pub fn toast_view<Message: Clone, F: Fn(ToastId) -> Message>(
    toasts: &Vec<ToastItem<Message>>,
    position: ToastPosition,
    on_dismiss: F,
) -> (r: ToastStack<Message>)
    requires
        forall|id: ToastId| #[trigger] call_requires(on_dismiss, (id,)),
    ensures
        r.toasts@.len() == toasts@.len(),
        forall|i: int| 0 <= i < toasts@.len() ==> shows_toast(toasts@[i], #[trigger] r.toasts@[i], on_dismiss),
        r.align == position_align(position),
        r.insets == position_insets(position),
{
    let mut pieces: Vec<ToastPieces<Message>> = Vec::new();
    let mut i: usize = 0;
    while i < toasts.len()
        invariant
            i <= toasts.len(),
            pieces@.len() == i,
            forall|id: ToastId| #[trigger] call_requires(on_dismiss, (id,)),
            forall|j: int| 0 <= j < i ==> shows_toast(toasts@[j], #[trigger] pieces@[j], on_dismiss),
        decreases toasts.len() - i,
    {
        let t = &toasts[i];
        let copy = copy_toast(t);
        let msg = on_dismiss(t.id);
        pieces.push(toast_content(copy, Some(msg)));
        i = i + 1;
    }
    let align = match position {
        ToastPosition::TopRight | ToastPosition::BottomRight => ToastAlign::End,
        ToastPosition::TopLeft | ToastPosition::BottomLeft => ToastAlign::Start,
        ToastPosition::TopCenter | ToastPosition::BottomCenter => ToastAlign::Center,
    };
    let insets = match position {
        ToastPosition::TopRight => ToastInsets { top: 20, right: 20, bottom: 0, left: 0 },
        ToastPosition::TopLeft => ToastInsets { top: 20, right: 0, bottom: 0, left: 20 },
        ToastPosition::TopCenter => ToastInsets { top: 20, right: 0, bottom: 0, left: 0 },
        ToastPosition::BottomRight => ToastInsets { top: 0, right: 20, bottom: 20, left: 0 },
        ToastPosition::BottomLeft => ToastInsets { top: 0, right: 0, bottom: 20, left: 20 },
        ToastPosition::BottomCenter => ToastInsets { top: 0, right: 0, bottom: 20, left: 0 },
    };
    ToastStack { toasts: pieces, align, insets }
}

/// The toast as the manager shows it: without its action button.
pub open spec fn without_action<M>(t: ToastItem<M>) -> ToastItem<M> {
    ToastItem { action: None, ..t }
}

struct ToastEntry<Message> {
    toast: ToastItem<Message>,
    dismissed: bool,
}

/// Keeps the toasts on screen, oldest first, at most `max_visible` of them
/// after each addition.
pub struct ToastManager<Message> {
    toasts: Vec<ToastEntry<Message>>,
    max_visible: usize,
    position: ToastPosition,
}

/// After adding `t` to `s`: `t` goes last, and when that makes more than
/// `max` toasts the oldest one leaves.
pub open spec fn add_spec<M>(s: Seq<ToastItem<M>>, t: ToastItem<M>, max: nat) -> Seq<ToastItem<M>> {
    if s.len() + 1 > max {
        s.push(t).drop_first()
    } else {
        s.push(t)
    }
}

/// The toasts whose id is not `id`, in order.
pub open spec fn without_id<M>(s: Seq<ToastItem<M>>, id: ToastId) -> Seq<ToastItem<M>> {
    s.filter(|t: ToastItem<M>| t.id != id)
}

/// Adding a toast to a manager within its limit keeps it within its limit;
/// unless the limit is zero the new toast is the last one shown, after the
/// newest of those shown before, in their order.
pub proof fn lemma_add_keeps_newest<M>(s: Seq<ToastItem<M>>, t: ToastItem<M>, max: nat)
    requires
        s.len() <= max,
    ensures
        add_spec(s, t, max).len() <= max,
        max >= 1 ==> add_spec(s, t, max).last() == t,
        max >= 1 ==> add_spec(s, t, max).drop_last() == s.skip(s.len() + 1 - add_spec(s, t, max).len()),
{
    let r = add_spec(s, t, max);
    if max >= 1 {
        if s.len() + 1 > max {
            assert(r.drop_last() =~= s.skip(s.len() + 1 - r.len()));
        } else {
            assert(r.drop_last() =~= s.skip(0));
        }
    }
}

/// After dismissing an id no toast has that id, and every toast with
/// another id is still there, in the same order.
pub proof fn lemma_dismiss_removes<M>(s: Seq<ToastItem<M>>, id: ToastId)
    ensures
        forall|i: int| 0 <= i < without_id(s, id).len() ==> (#[trigger] without_id(s, id)[i]).id != id,
        forall|i: int| 0 <= i < s.len() && (#[trigger] s[i]).id != id ==> without_id(s, id).contains(s[i]),
{
    let f = |t: ToastItem<M>| t.id != id;
    let r = s.filter(f);
    assert forall|i: int| 0 <= i < r.len() implies (#[trigger] r[i]).id != id by {
        s.filter_lemma(f);
    }
    assert forall|i: int| 0 <= i < s.len() && (#[trigger] s[i]).id != id implies r.contains(s[i]) by {
        s.filter_lemma(f);
    }
}

impl<Message> ToastManager<Message> {
    /// The toasts held, oldest first.
    pub closed spec fn toasts(&self) -> Seq<ToastItem<Message>> {
        self.toasts@.map_values(|e: ToastEntry<Message>| e.toast)
    }

    pub closed spec fn limit(&self) -> nat {
        self.max_visible as nat
    }

    pub closed spec fn place(&self) -> ToastPosition {
        self.position
    }

    /// No toast is marked dismissed (dismissing removes it).
    pub closed spec fn wf(&self) -> bool {
        forall|i: int| 0 <= i < self.toasts@.len() ==> !(#[trigger] self.toasts@[i]).dismissed
    }

    /// An empty manager showing at most five toasts at the bottom right.
    pub fn new() -> (r: Self)
        ensures
            r.wf(),
            r.toasts() == Seq::<ToastItem<Message>>::empty(),
            r.limit() == 5,
            r.place() == ToastPosition::BottomRight,
    {
        let r = ToastManager { toasts: Vec::new(), max_visible: 5, position: ToastPosition::BottomRight };
        proof {
            assert(r.toasts() =~= Seq::<ToastItem<Message>>::empty());
        }
        r
    }

    /// Sets how many toasts are kept.
    pub fn max_visible(self, max: usize) -> (r: Self)
        ensures
            r.wf() == self.wf(),
            r.toasts() == self.toasts(),
            r.limit() == max,
            r.place() == self.place(),
    {
        ToastManager { max_visible: max, ..self }
    }

    /// Sets where toasts are shown.
    pub fn position(self, pos: ToastPosition) -> (r: Self)
        ensures
            r.wf() == self.wf(),
            r.toasts() == self.toasts(),
            r.limit() == self.limit(),
            r.place() == pos,
    {
        ToastManager { position: pos, ..self }
    }

    /// Adds a toast; when there are then more than `max_visible`, the
    /// oldest leaves.
    pub fn add(&mut self, toast: ToastItem<Message>)
        requires
            old(self).wf(),
        ensures
            final(self).wf(),
            final(self).toasts() == add_spec(old(self).toasts(), toast, old(self).limit()),
            final(self).limit() == old(self).limit(),
            final(self).place() == old(self).place(),
    {
        let ghost t = toast;
        self.toasts.push(ToastEntry { toast, dismissed: false });
        proof {
            assert(self.toasts() =~= old(self).toasts().push(t));
        }
        if self.toasts.len() > self.max_visible {
            self.toasts.remove(0);
            proof {
                assert(self.toasts() =~= old(self).toasts().push(t).drop_first());
            }
        }
    }

    /// Removes the toasts with the given id.
    pub fn dismiss(&mut self, id: ToastId)
        requires
            old(self).wf(),
        ensures
            final(self).wf(),
            final(self).toasts() == without_id(old(self).toasts(), id),
            final(self).limit() == old(self).limit(),
            final(self).place() == old(self).place(),
    {
        let ghost orig = self.toasts();
        let mut kept: Vec<ToastEntry<Message>> = Vec::new();
        let mut rest: Vec<ToastEntry<Message>> = Vec::new();
        std::mem::swap(&mut rest, &mut self.toasts);
        let ghost all = rest@;
        // Walk the toasts from the last one, then reverse.
        let mut back: Vec<ToastEntry<Message>> = Vec::new();
        while rest.len() > 0
            invariant
                rest@ + back@.reverse() =~= all,
            decreases rest.len(),
        {
            let e = rest.pop().unwrap();
            let ghost before = back@;
            back.push(e);
            proof {
                assert(back@.reverse() =~= seq![e] + before.reverse());
                assert(rest@.push(e) + before.reverse() =~= rest@ + back@.reverse());
            }
        }
        proof {
            assert(back@.reverse() =~= all);
            assert(all.skip(0) =~= all);
            assert(kept@.map_values(|e: ToastEntry<Message>| e.toast) =~= without_id(orig.take(0), id)) by {
                assert(orig.take(0) =~= Seq::<ToastItem<Message>>::empty());
            }
        }
        while back.len() > 0
            invariant
                back@.len() <= all.len(),
                back@.reverse() =~= all.skip(all.len() - back@.len()),
                orig == all.map_values(|e: ToastEntry<Message>| e.toast),
                forall|j: int| 0 <= j < all.len() ==> !(#[trigger] all[j]).dismissed,
                forall|j: int| 0 <= j < kept@.len() ==> !(#[trigger] kept@[j]).dismissed,
                kept@.map_values(|e: ToastEntry<Message>| e.toast) =~= without_id(orig.take(all.len() - back@.len()), id),
            decreases back.len(),
        {
            let ghost k = all.len() - back@.len();
            let e = back.pop().unwrap();
            proof {
                assert(all[k] == e) by {
                    assert(back@.push(e).reverse()[0] == e);
                    assert(all.skip(k)[0] == all[k]);
                }
                assert(back@.reverse() =~= all.skip(k + 1)) by {
                    assert(back@.push(e).reverse() =~= all.skip(k));
                    assert forall|j: int| 0 <= j < back@.len() implies back@.reverse()[j] == all.skip(k + 1)[j] by {
                        assert(back@.push(e).reverse()[j + 1] == back@.reverse()[j]);
                    }
                }
                assert(orig.take(k + 1) =~= orig.take(k).push(e.toast));
                reveal(Seq::filter);
                assert(without_id(orig.take(k + 1), id) == without_id(orig.take(k), id) + (if e.toast.id != id {
                    seq![e.toast]
                } else {
                    Seq::<ToastItem<Message>>::empty()
                })) by {
                    assert(orig.take(k + 1).drop_last() =~= orig.take(k));
                    assert(orig.take(k + 1).last() == e.toast);
                    if e.toast.id != id {
                        assert(without_id(orig.take(k), id).push(e.toast) =~= without_id(orig.take(k), id) + seq![e.toast]);
                    } else {
                        assert(without_id(orig.take(k), id) =~= without_id(orig.take(k), id) + Seq::<ToastItem<Message>>::empty());
                    }
                }
            }
            if e.toast.id != id {
                let ghost before = kept@;
                kept.push(e);
                proof {
                    assert(kept@.map_values(|e: ToastEntry<Message>| e.toast) =~= before.map_values(|e: ToastEntry<Message>| e.toast).push(e.toast));
                }
            } else {
                proof {
                    assert(without_id(orig.take(k), id) + Seq::<ToastItem<Message>>::empty() =~= without_id(orig.take(k), id));
                }
            }
        }
        proof {
            assert(orig.take(all.len() as int) =~= orig);
        }
        self.toasts = kept;
    }

    /// Removes every toast.
    pub fn clear(&mut self)
        ensures
            final(self).wf(),
            final(self).toasts() == Seq::<ToastItem<Message>>::empty(),
            final(self).limit() == old(self).limit(),
            final(self).place() == old(self).place(),
    {
        self.toasts.clear();
        proof {
            assert(self.toasts() =~= Seq::<ToastItem<Message>>::empty());
        }
    }

    /// The toasts on screen, oldest first.
    pub fn active_toasts(&self) -> (r: Vec<&ToastItem<Message>>)
        requires
            self.wf(),
        ensures
            r@.len() == self.toasts().len(),
            forall|i: int| 0 <= i < r@.len() ==> *(#[trigger] r@[i]) == self.toasts()[i],
    {
        let mut out: Vec<&ToastItem<Message>> = Vec::new();
        let mut i: usize = 0;
        while i < self.toasts.len()
            invariant
                i <= self.toasts.len(),
                self.wf(),
                out@.len() == i,
                forall|j: int| 0 <= j < i ==> *(#[trigger] out@[j]) == self.toasts()[j],
            decreases self.toasts.len() - i,
        {
            let e = &self.toasts[i];
            if !e.dismissed {
                out.push(&e.toast);
            }
            i = i + 1;
        }
        out
    }

    /// Where the toasts are shown.
    pub fn current_position(&self) -> (r: ToastPosition)
        ensures
            r == self.place(),
    {
        self.position
    }
}

impl<Message: Clone> ToastManager<Message> {
    /// The view of the toasts held, oldest first and without their action
    /// buttons; nothing when there are none.
    pub fn view<F: Fn(ToastId) -> Message>(&self, on_dismiss: F) -> (r: Option<ToastStack<Message>>)
        requires
            self.wf(),
            forall|id: ToastId| #[trigger] call_requires(on_dismiss, (id,)),
        ensures
            r is None <==> self.toasts().len() == 0,
            r matches Some(st) ==> {
                &&& st.toasts@.len() == self.toasts().len()
                &&& forall|i: int| 0 <= i < self.toasts().len()
                    ==> shows_toast(without_action(self.toasts()[i]), #[trigger] st.toasts@[i], on_dismiss)
                &&& st.align == position_align(self.place())
                &&& st.insets == position_insets(self.place())
            },
    {
        let mut active: Vec<ToastItem<Message>> = Vec::new();
        let mut i: usize = 0;
        while i < self.toasts.len()
            invariant
                self.wf(),
                i <= self.toasts.len(),
                active@.len() == i,
                forall|j: int| 0 <= j < i ==> {
                    let a = #[trigger] active@[j];
                    let t = self.toasts()[j];
                    &&& a.id == t.id
                    &&& a.variant == t.variant
                    &&& a.title@ == t.title@
                    &&& opt_view(a.description) == opt_view(t.description)
                    &&& a.action is None
                    &&& a.dismissible == t.dismissible
                },
            decreases self.toasts.len() - i,
        {
            let e = &self.toasts[i];
            proof {
                assert(!self.toasts@[i as int].dismissed);
                assert(self.toasts()[i as int] == e.toast);
            }
            let description = match &e.toast.description {
                Some(d) => Some(d.clone()),
                None => None,
            };
            active.push(ToastItem {
                id: e.toast.id,
                variant: e.toast.variant,
                title: e.toast.title.clone(),
                description,
                action: None,
                dismissible: e.toast.dismissible,
            });
            i = i + 1;
        }
        if active.len() == 0 {
            return None;
        }
        let st = toast_view(&active, self.position, on_dismiss);
        proof {
            assert forall|j: int| 0 <= j < self.toasts().len()
                implies shows_toast(without_action(self.toasts()[j]), #[trigger] st.toasts@[j], on_dismiss) by {
                assert(shows_toast(active@[j], st.toasts@[j], on_dismiss));
            }
        }
        Some(st)
    }
}

impl<Message> Default for ToastManager<Message> {
    fn default() -> (r: Self)
        ensures
            r.wf(),
            r.toasts() == Seq::<ToastItem<Message>>::empty(),
            r.limit() == 5,
            r.place() == ToastPosition::BottomRight,
    {
        Self::new()
    }
}

} // verus!
