//! The SoryOS navigation sidebar: groups of entries that can fold, a bar
//! that can collapse to icons only, a header, a search field and a footer.
//!
//! [`SoryNav::layout`] decides what the sidebar shows, top to bottom; the
//! renderer turns each [`NavPiece`] into a widget.
use vstd::prelude::*;
use iced_core::{Length, Padding};
use crate::measure::{fixed_length, length_fill, length_from_units, padding_from_vh, padding_vh};

verus! {

/// One entry of a navigation group.
pub struct SoryNavEntry<E, Message> {
    pub icon: Option<E>,
    pub label: E,
    pub badge: Option<E>,
    pub counter: Option<E>,
    pub tooltip_text: Option<String>,
    pub active: bool,
    pub parent_active: bool,
    pub disabled: bool,
    pub on_press: Option<Message>,
}

/// An element of a navigation group.
pub enum SoryNavItem<E, Message> {
    /// A top-level entry.
    Item(SoryNavEntry<E, Message>),
    /// An entry under the one before it.
    SubItem(SoryNavEntry<E, Message>),
    /// A thin rule.
    Separator,
}

/// A group of navigation entries.
pub struct SoryNavGroup<E, Message> {
    pub label: Option<String>,
    pub items: Vec<SoryNavItem<E, Message>>,
    pub separator_after: bool,
    pub collapsible: bool,
    pub collapsed: bool,
    pub on_toggle: Option<Message>,
}

/// The sidebar.
pub struct SoryNav<E, Message> {
    pub groups: Vec<SoryNavGroup<E, Message>>,
    pub header: Option<E>,
    pub footer: Option<E>,
    pub search: Option<E>,
    pub width: Length,
    pub height: Length,
    pub collapsed: bool,
    /// The width, in pixels, of the collapsed bar.
    pub collapsed_width: u32,
    pub on_toggle_collapse: Option<Message>,
    pub scrollable: bool,
}

/// How an entry's row is painted.
#[derive(Debug, Clone, Copy, PartialEq, Eq, Structural)]
pub enum NavLook {
    /// The resting look (also that of a disabled entry).
    Plain,
    /// The selected entry.
    Active,
    /// The parent of the selected entry.
    ParentActive,
}

/// An entry's row, as shown.
pub struct NavRow<E, Message> {
    /// The accent bar on the left, shown on the active entry.
    pub accent_bar: bool,
    /// A narrow gap in place of the accent bar, before an inactive sub-entry.
    pub sub_gap: bool,
    pub icon: Option<E>,
    /// The label; hidden when the bar is collapsed.
    pub label: Option<E>,
    /// The badge; hidden when the bar is collapsed.
    pub badge: Option<E>,
    /// The counter; hidden when the bar is collapsed.
    pub counter: Option<E>,
    pub look: NavLook,
    /// An extra left inset, for an inactive sub-entry of an expanded bar.
    pub indented: bool,
    /// The row is centered (collapsed bar).
    pub centered: bool,
    /// The message of a press; none for a disabled entry.
    pub on_press: Option<Message>,
    /// The tooltip; shown only when the bar is collapsed.
    pub tooltip: Option<String>,
    /// The hover animation; off for a disabled entry.
    pub animated: bool,
}

/// One piece of the sidebar, top to bottom.
pub enum NavPiece<E, Message> {
    /// The header; `compact` when the bar is collapsed.
    Header { content: E, compact: bool },
    /// The search field (expanded bar only).
    Search(E),
    /// The button that collapses (◀) or expands (▶) the bar.
    CollapseToggle { collapsed: bool, on_press: Message },
    /// A group's caption (expanded bar only).
    GroupLabel(String),
    /// A thin horizontal rule.
    Rule,
    /// The chevron that folds (▼) or unfolds (▶) a group.
    GroupToggle { collapsed: bool, on_press: Message },
    /// A navigation entry.
    Entry(NavRow<E, Message>),
    /// The flexible space that pushes the footer down.
    Filler,
    /// The footer; `compact` when the bar is collapsed.
    Footer { content: E, compact: bool },
}

/// The row shown for an entry.
pub open spec fn entry_row<E, Message>(e: SoryNavEntry<E, Message>, is_sub: bool, collapsed: bool) -> NavRow<E, Message> {
    NavRow {
        accent_bar: e.active,
        sub_gap: !e.active && is_sub,
        icon: e.icon,
        label: if collapsed { None } else { Some(e.label) },
        badge: if collapsed { None } else { e.badge },
        counter: if collapsed { None } else { e.counter },
        look: if e.disabled {
            NavLook::Plain
        } else if e.active {
            NavLook::Active
        } else if e.parent_active {
            NavLook::ParentActive
        } else {
            NavLook::Plain
        },
        indented: is_sub && !e.active && !collapsed,
        centered: collapsed,
        on_press: if e.disabled { None } else { e.on_press },
        tooltip: if collapsed { e.tooltip_text } else { None },
        animated: !e.disabled,
    }
}

/// The piece shown for a group's element.
pub open spec fn item_piece<E, Message>(item: SoryNavItem<E, Message>, collapsed: bool) -> NavPiece<E, Message> {
    match item {
        SoryNavItem::Item(e) => NavPiece::Entry(entry_row(e, false, collapsed)),
        SoryNavItem::SubItem(e) => NavPiece::Entry(entry_row(e, true, collapsed)),
        SoryNavItem::Separator => NavPiece::Rule,
    }
}

/// The pieces shown for a group's elements, in order.
pub open spec fn items_pieces<E, Message>(items: Seq<SoryNavItem<E, Message>>, collapsed: bool) -> Seq<NavPiece<E, Message>> {
    items.map_values(|it: SoryNavItem<E, Message>| item_piece(it, collapsed))
}

/// The pieces shown for a group: its caption (a rule when the bar is
/// collapsed), its fold chevron, its elements unless it is folded, and the
/// rule after it.
pub open spec fn group_pieces<E, Message>(g: SoryNavGroup<E, Message>, collapsed: bool) -> Seq<NavPiece<E, Message>> {
    let caption = match g.label {
        Some(l) => if collapsed { seq![NavPiece::Rule] } else { seq![NavPiece::GroupLabel(l)] },
        None => seq![],
    };
    let chevron = match g.on_toggle {
        Some(m) => if g.collapsible { seq![NavPiece::GroupToggle { collapsed: g.collapsed, on_press: m }] } else { seq![] },
        None => seq![],
    };
    let body = if g.collapsed { seq![] } else { items_pieces(g.items@, collapsed) };
    let after = if g.separator_after { seq![NavPiece::Rule] } else { seq![] };
    caption + chevron + body + after
}

/// The pieces shown for groups, in order.
pub open spec fn groups_pieces<E, Message>(gs: Seq<SoryNavGroup<E, Message>>, collapsed: bool) -> Seq<NavPiece<E, Message>>
    decreases gs.len(),
{
    if gs.len() == 0 {
        seq![]
    } else {
        groups_pieces(gs.drop_last(), collapsed) + group_pieces(gs.last(), collapsed)
    }
}

/// Whether a piece suits a bar that is collapsed (`collapsed`) or expanded:
/// a collapsed bar shows no caption and no search field, and its entry
/// rows are centered, without label, badge or counter; an expanded bar shows
/// no tooltip, and its rows, header, footer and collapse button are those
/// of the full width.
pub open spec fn suits_bar<E, Message>(p: NavPiece<E, Message>, collapsed: bool) -> bool {
    if collapsed {
        match p {
            NavPiece::Search(_) => false,
            NavPiece::GroupLabel(_) => false,
            NavPiece::Entry(row) => row.label is None && row.badge is None && row.counter is None && row.centered,
            NavPiece::Header { compact, .. } => compact,
            NavPiece::Footer { compact, .. } => compact,
            NavPiece::CollapseToggle { collapsed: c, .. } => c,
            _ => true,
        }
    } else {
        match p {
            NavPiece::Entry(row) => row.tooltip is None && !row.centered,
            NavPiece::Header { compact, .. } => !compact,
            NavPiece::Footer { compact, .. } => !compact,
            NavPiece::CollapseToggle { collapsed: c, .. } => !c,
            _ => true,
        }
    }
}

pub open spec fn all_suit_bar<E, Message>(s: Seq<NavPiece<E, Message>>, collapsed: bool) -> bool {
    forall|i: int| 0 <= i < s.len() ==> suits_bar(#[trigger] s[i], collapsed)
}

proof fn lemma_all_suit_concat<E, Message>(a: Seq<NavPiece<E, Message>>, b: Seq<NavPiece<E, Message>>, collapsed: bool)
    requires
        all_suit_bar(a, collapsed),
        all_suit_bar(b, collapsed),
    ensures
        all_suit_bar(a + b, collapsed),
{
    assert forall|i: int| 0 <= i < (a + b).len() implies suits_bar(#[trigger] (a + b)[i], collapsed) by {
        if i < a.len() {
            assert((a + b)[i] == a[i]);
        } else {
            assert((a + b)[i] == b[i - a.len()]);
        }
    }
}

proof fn lemma_groups_suit_bar<E, Message>(gs: Seq<SoryNavGroup<E, Message>>, collapsed: bool)
    ensures
        all_suit_bar(groups_pieces(gs, collapsed), collapsed),
    decreases gs.len(),
{
    if gs.len() > 0 {
        lemma_groups_suit_bar(gs.drop_last(), collapsed);
        let g = gs.last();
        let caption: Seq<NavPiece<E, Message>> = match g.label {
            Some(l) => if collapsed { seq![NavPiece::Rule] } else { seq![NavPiece::GroupLabel(l)] },
            None => seq![],
        };
        let chevron: Seq<NavPiece<E, Message>> = match g.on_toggle {
            Some(m) => if g.collapsible { seq![NavPiece::GroupToggle { collapsed: g.collapsed, on_press: m }] } else { seq![] },
            None => seq![],
        };
        let body: Seq<NavPiece<E, Message>> = if g.collapsed { seq![] } else { items_pieces(g.items@, collapsed) };
        let after: Seq<NavPiece<E, Message>> = if g.separator_after { seq![NavPiece::Rule] } else { seq![] };
        assert(all_suit_bar(caption, collapsed));
        assert(all_suit_bar(chevron, collapsed));
        assert(all_suit_bar(after, collapsed));
        assert(all_suit_bar(body, collapsed)) by {
            if !g.collapsed {
                assert forall|i: int| 0 <= i < body.len() implies suits_bar(#[trigger] body[i], collapsed) by {
                    assert(body[i] == item_piece(g.items@[i], collapsed));
                }
            }
        }
        lemma_all_suit_concat(caption, chevron, collapsed);
        lemma_all_suit_concat(caption + chevron, body, collapsed);
        lemma_all_suit_concat(caption + chevron + body, after, collapsed);
        assert(group_pieces(g, collapsed) == caption + chevron + body + after);
        lemma_all_suit_concat(groups_pieces(gs.drop_last(), collapsed), group_pieces(g, collapsed), collapsed);
    }
}

/// Some row of `s` shows entry `e` in full: its label, icon, badge and
/// counter.
pub open spec fn shows_entry<E, Message>(s: Seq<NavPiece<E, Message>>, e: SoryNavEntry<E, Message>) -> bool {
    exists|j: int| {
        &&& 0 <= j < s.len()
        &&& (#[trigger] s[j]) is Entry
        &&& s[j]->Entry_0.label == Some(e.label)
        &&& s[j]->Entry_0.icon == e.icon
        &&& s[j]->Entry_0.badge == e.badge
        &&& s[j]->Entry_0.counter == e.counter
    }
}

proof fn lemma_shows_entry_extend<E, Message>(a: Seq<NavPiece<E, Message>>, b: Seq<NavPiece<E, Message>>, e: SoryNavEntry<E, Message>)
    ensures
        shows_entry(a, e) ==> shows_entry(a + b, e),
        shows_entry(b, e) ==> shows_entry(a + b, e),
{
    if shows_entry(a, e) {
        let j = choose|j: int| {
            &&& 0 <= j < a.len()
            &&& (#[trigger] a[j]) is Entry
            &&& a[j]->Entry_0.label == Some(e.label)
            &&& a[j]->Entry_0.icon == e.icon
            &&& a[j]->Entry_0.badge == e.badge
            &&& a[j]->Entry_0.counter == e.counter
        };
        assert((a + b)[j] == a[j]);
    }
    if shows_entry(b, e) {
        let j = choose|j: int| {
            &&& 0 <= j < b.len()
            &&& (#[trigger] b[j]) is Entry
            &&& b[j]->Entry_0.label == Some(e.label)
            &&& b[j]->Entry_0.icon == e.icon
            &&& b[j]->Entry_0.badge == e.badge
            &&& b[j]->Entry_0.counter == e.counter
        };
        assert((a + b)[a.len() + j] == b[j]);
    }
}

proof fn lemma_groups_show_entry<E, Message>(gs: Seq<SoryNavGroup<E, Message>>, gi: int, ii: int, e: SoryNavEntry<E, Message>)
    requires
        0 <= gi < gs.len(),
        !gs[gi].collapsed,
        0 <= ii < gs[gi].items@.len(),
        gs[gi].items@[ii] == SoryNavItem::Item(e) || gs[gi].items@[ii] == SoryNavItem::SubItem(e),
    ensures
        shows_entry(groups_pieces(gs, false), e),
    decreases gs.len(),
{
    let prefix = groups_pieces(gs.drop_last(), false);
    let last = group_pieces(gs.last(), false);
    assert(groups_pieces(gs, false) == prefix + last);
    if gi == gs.len() - 1 {
        let g = gs.last();
        let caption: Seq<NavPiece<E, Message>> = match g.label {
            Some(l) => seq![NavPiece::GroupLabel(l)],
            None => seq![],
        };
        let chevron: Seq<NavPiece<E, Message>> = match g.on_toggle {
            Some(m) => if g.collapsible { seq![NavPiece::GroupToggle { collapsed: g.collapsed, on_press: m }] } else { seq![] },
            None => seq![],
        };
        let body = items_pieces(g.items@, false);
        let after: Seq<NavPiece<E, Message>> = if g.separator_after { seq![NavPiece::Rule] } else { seq![] };
        assert(last == caption + chevron + body + after);
        let j = caption.len() + chevron.len() + ii;
        assert(body[ii] == item_piece(g.items@[ii], false));
        assert(last[j] == body[ii]);
        assert(last[j] is Entry);
        assert(shows_entry(last, e));
        lemma_shows_entry_extend(prefix, last, e);
    } else {
        assert(gs.drop_last()[gi] == gs[gi]);
        lemma_groups_show_entry(gs.drop_last(), gi, ii, e);
        lemma_shows_entry_extend(prefix, last, e);
    }
}

/// An expanded bar shows every entry of its unfolded groups in full: each
/// such entry has a row carrying its label, icon, badge and counter (only a
/// collapsed bar hides the label, badge and counter).
pub proof fn lemma_expanded_bar_shows_entries<E, Message>(nav: SoryNav<E, Message>, gi: int, ii: int, e: SoryNavEntry<E, Message>)
    requires
        !nav.collapsed,
        0 <= gi < nav.groups@.len(),
        !nav.groups@[gi].collapsed,
        0 <= ii < nav.groups@[gi].items@.len(),
        nav.groups@[gi].items@[ii] == SoryNavItem::Item(e) || nav.groups@[gi].items@[ii] == SoryNavItem::SubItem(e),
    ensures
        shows_entry(nav.layout_spec(), e),
{
    lemma_groups_show_entry(nav.groups@, gi, ii, e);
    let header: Seq<NavPiece<E, Message>> = match nav.header {
        Some(h) => seq![NavPiece::Header { content: h, compact: nav.collapsed }],
        None => seq![],
    };
    let search: Seq<NavPiece<E, Message>> = match nav.search {
        Some(s) => if nav.collapsed { seq![] } else { seq![NavPiece::Search(s)] },
        None => seq![],
    };
    let toggle: Seq<NavPiece<E, Message>> = match nav.on_toggle_collapse {
        Some(m) => seq![NavPiece::CollapseToggle { collapsed: nav.collapsed, on_press: m }],
        None => seq![],
    };
    let footer: Seq<NavPiece<E, Message>> = match nav.footer {
        Some(f) => seq![NavPiece::Footer { content: f, compact: nav.collapsed }],
        None => seq![],
    };
    let groups = groups_pieces(nav.groups@, nav.collapsed);
    assert(nav.layout_spec() == header + search + toggle + groups + seq![NavPiece::Filler] + footer);
    lemma_shows_entry_extend(header + search + toggle, groups, e);
    lemma_shows_entry_extend(header + search + toggle + groups, seq![NavPiece::Filler], e);
    lemma_shows_entry_extend(header + search + toggle + groups + seq![NavPiece::Filler], footer, e);
}

/// The sidebar law. Everything a collapsed bar shows suits an icon-only
/// bar: no group caption and no search field, and every entry row
/// centered, with its icon but without label, badge or counter, next to a
/// compact header and footer and an expand button. Everything an expanded
/// bar shows suits the full width: no tooltips, and a full header, footer
/// and collapse button.
pub proof fn lemma_layout_suits_bar<E, Message>(nav: SoryNav<E, Message>)
    ensures
        all_suit_bar(nav.layout_spec(), nav.collapsed),
{
    let c = nav.collapsed;
    let header: Seq<NavPiece<E, Message>> = match nav.header {
        Some(h) => seq![NavPiece::Header { content: h, compact: c }],
        None => seq![],
    };
    let search: Seq<NavPiece<E, Message>> = match nav.search {
        Some(s) => if c { seq![] } else { seq![NavPiece::Search(s)] },
        None => seq![],
    };
    let toggle: Seq<NavPiece<E, Message>> = match nav.on_toggle_collapse {
        Some(m) => seq![NavPiece::CollapseToggle { collapsed: c, on_press: m }],
        None => seq![],
    };
    let footer: Seq<NavPiece<E, Message>> = match nav.footer {
        Some(f) => seq![NavPiece::Footer { content: f, compact: c }],
        None => seq![],
    };
    let filler: Seq<NavPiece<E, Message>> = seq![NavPiece::Filler];
    let groups = groups_pieces(nav.groups@, c);
    lemma_groups_suit_bar(nav.groups@, c);
    assert(all_suit_bar(header, c));
    assert(all_suit_bar(search, c));
    assert(all_suit_bar(toggle, c));
    assert(all_suit_bar(footer, c));
    assert(all_suit_bar(filler, c));
    lemma_all_suit_concat(header, search, c);
    lemma_all_suit_concat(header + search, toggle, c);
    lemma_all_suit_concat(header + search + toggle, groups, c);
    lemma_all_suit_concat(header + search + toggle + groups, filler, c);
    lemma_all_suit_concat(header + search + toggle + groups + filler, footer, c);
    assert(nav.layout_spec() == header + search + toggle + groups + filler + footer);
}

/// `v` in reverse order, so that popping yields `v`'s elements first to last.
fn reversed<T>(v: Vec<T>) -> (r: Vec<T>)
    ensures
        r@.len() == v@.len(),
        forall|i: int| 0 <= i < v@.len() ==> r@[i] == v@[v@.len() - 1 - i],
{
    let mut src = v;
    let mut r: Vec<T> = Vec::new();
    while src.len() > 0
        invariant
            r@.len() + src@.len() == v@.len(),
            src@ == v@.take(src@.len() as int),
            forall|i: int| 0 <= i < r@.len() ==> r@[i] == v@[v@.len() - 1 - i],
        decreases src@.len(),
    {
        let x = src.pop().unwrap();
        r.push(x);
    }
    r
}

/// The row shown for an entry.
fn make_row<E, Message>(e: SoryNavEntry<E, Message>, is_sub: bool, collapsed: bool) -> (r: NavRow<E, Message>)
    ensures
        r == entry_row(e, is_sub, collapsed),
{
    let look = if e.disabled {
        NavLook::Plain
    } else if e.active {
        NavLook::Active
    } else if e.parent_active {
        NavLook::ParentActive
    } else {
        NavLook::Plain
    };
    NavRow {
        accent_bar: e.active,
        sub_gap: !e.active && is_sub,
        icon: e.icon,
        label: if collapsed { None } else { Some(e.label) },
        badge: if collapsed { None } else { e.badge },
        counter: if collapsed { None } else { e.counter },
        look,
        indented: is_sub && !e.active && !collapsed,
        centered: collapsed,
        on_press: if e.disabled { None } else { e.on_press },
        tooltip: if collapsed { e.tooltip_text } else { None },
        animated: !e.disabled,
    }
}

/// The piece shown for a group's element.
fn make_piece<E, Message>(item: SoryNavItem<E, Message>, collapsed: bool) -> (r: NavPiece<E, Message>)
    ensures
        r == item_piece(item, collapsed),
{
    match item {
        SoryNavItem::Item(e) => NavPiece::Entry(make_row(e, false, collapsed)),
        SoryNavItem::SubItem(e) => NavPiece::Entry(make_row(e, true, collapsed)),
        SoryNavItem::Separator => NavPiece::Rule,
    }
}

/// Appends the pieces shown for a group to `out`.
fn push_group<E, Message>(out: &mut Vec<NavPiece<E, Message>>, g: SoryNavGroup<E, Message>, collapsed: bool)
    ensures
        final(out)@ == old(out)@ + group_pieces(g, collapsed),
{
    let ghost start = out@;
    let ghost gv = g;
    let SoryNavGroup { label, items, separator_after, collapsible, collapsed: folded, on_toggle } = g;
    match label {
        Some(l) => {
            if collapsed {
                out.push(NavPiece::Rule);
            } else {
                out.push(NavPiece::GroupLabel(l));
            }
        },
        None => {},
    }
    if collapsible {
        match on_toggle {
            Some(m) => {
                out.push(NavPiece::GroupToggle { collapsed: folded, on_press: m });
            },
            None => {},
        }
    }
    let ghost head = out@;
    if !folded {
        let mut rest = reversed(items);
        let ghost n = gv.items@.len();
        while rest.len() > 0
            invariant
                rest@.len() <= n,
                n == gv.items@.len(),
                forall|i: int| 0 <= i < rest@.len() ==> rest@[i] == gv.items@[n - 1 - i],
                out@ == head + items_pieces(gv.items@.take(n - rest@.len()), collapsed),
            decreases rest@.len(),
        {
            let ghost k = n - rest@.len();
            let it = rest.pop().unwrap();
            assert(it == gv.items@[k]);
            out.push(make_piece(it, collapsed));
            assert(items_pieces(gv.items@.take(k + 1), collapsed)
                =~= items_pieces(gv.items@.take(k), collapsed).push(item_piece(gv.items@[k], collapsed)));
        }
        assert(gv.items@.take(n as int) =~= gv.items@);
    }
    if separator_after {
        out.push(NavPiece::Rule);
    }
    proof {
        let caption: Seq<NavPiece<E, Message>> = match gv.label {
            Some(l) => if collapsed { seq![NavPiece::Rule] } else { seq![NavPiece::GroupLabel(l)] },
            None => seq![],
        };
        let chevron: Seq<NavPiece<E, Message>> = match gv.on_toggle {
            Some(m) => if gv.collapsible { seq![NavPiece::GroupToggle { collapsed: gv.collapsed, on_press: m }] } else { seq![] },
            None => seq![],
        };
        assert(head =~= start + caption + chevron);
        assert(out@ =~= old(out)@ + group_pieces(gv, collapsed));
    }
}

impl<E, Message> SoryNavEntry<E, Message> {
    /// An entry with only a label: inactive, enabled, and without a message.
    pub open spec fn bare(label: E) -> Self {
        SoryNavEntry {
            icon: None,
            label,
            badge: None,
            counter: None,
            tooltip_text: None,
            active: false,
            parent_active: false,
            disabled: false,
            on_press: None,
        }
    }
}

impl<E, Message> SoryNav<E, Message> {
    /// What the sidebar shows, top to bottom: the header, the search field
    /// (expanded bar only), the collapse button, each group's pieces, the
    /// filler and the footer.
    pub open spec fn layout_spec(self) -> Seq<NavPiece<E, Message>> {
        let header = match self.header {
            Some(h) => seq![NavPiece::Header { content: h, compact: self.collapsed }],
            None => seq![],
        };
        let search = match self.search {
            Some(s) => if self.collapsed { seq![] } else { seq![NavPiece::Search(s)] },
            None => seq![],
        };
        let toggle = match self.on_toggle_collapse {
            Some(m) => seq![NavPiece::CollapseToggle { collapsed: self.collapsed, on_press: m }],
            None => seq![],
        };
        let footer = match self.footer {
            Some(f) => seq![NavPiece::Footer { content: f, compact: self.collapsed }],
            None => seq![],
        };
        header + search + toggle + groups_pieces(self.groups@, self.collapsed) + seq![NavPiece::Filler] + footer
    }

    /// An empty, expanded, scrollable bar, 260 pixels wide (64 when
    /// collapsed) and filling the height.
    pub fn new() -> (r: Self)
        ensures
            r.groups@.len() == 0,
            r.header is None,
            r.footer is None,
            r.search is None,
            r.width == fixed_length(260),
            !r.collapsed,
            r.collapsed_width == 64,
            r.on_toggle_collapse is None,
            r.scrollable,
    {
        SoryNav {
            groups: Vec::new(),
            header: None,
            footer: None,
            search: None,
            width: length_from_units(260),
            height: length_fill(),
            collapsed: false,
            collapsed_width: 64,
            on_toggle_collapse: None,
            scrollable: true,
        }
    }

    pub fn width(self, width: Length) -> (r: Self)
        ensures
            r == (SoryNav { width, ..self }),
    {
        SoryNav { width, ..self }
    }

    pub fn height(self, height: Length) -> (r: Self)
        ensures
            r == (SoryNav { height, ..self }),
    {
        SoryNav { height, ..self }
    }

    /// Collapses the bar to its icons, or expands it.
    pub fn collapsed(self, collapsed: bool) -> (r: Self)
        ensures
            r == (SoryNav { collapsed, ..self }),
    {
        SoryNav { collapsed, ..self }
    }

    /// The width, in pixels, of the collapsed bar.
    pub fn collapsed_width(self, width: u32) -> (r: Self)
        ensures
            r == (SoryNav { collapsed_width: width, ..self }),
    {
        SoryNav { collapsed_width: width, ..self }
    }

    /// The message sent by the collapse button (which is shown only then).
    pub fn on_toggle_collapse(self, msg: Message) -> (r: Self)
        ensures
            r == (SoryNav { on_toggle_collapse: Some(msg), ..self }),
    {
        SoryNav { on_toggle_collapse: Some(msg), ..self }
    }

    pub fn scrollable(self, scrollable: bool) -> (r: Self)
        ensures
            r == (SoryNav { scrollable, ..self }),
    {
        SoryNav { scrollable, ..self }
    }

    pub fn search(self, search: E) -> (r: Self)
        ensures
            r == (SoryNav { search: Some(search), ..self }),
    {
        SoryNav { search: Some(search), ..self }
    }

    pub fn header(self, header: E) -> (r: Self)
        ensures
            r == (SoryNav { header: Some(header), ..self }),
    {
        SoryNav { header: Some(header), ..self }
    }

    pub fn footer(self, footer: E) -> (r: Self)
        ensures
            r == (SoryNav { footer: Some(footer), ..self }),
    {
        SoryNav { footer: Some(footer), ..self }
    }

    /// Adds a group after the others.
    pub fn group(self, group: SoryNavGroup<E, Message>) -> (r: Self)
        ensures
            r == (SoryNav { groups: r.groups, ..self }),
            r.groups@ == self.groups@.push(group),
    {
        let mut s = self;
        s.groups.push(group);
        s
    }

    /// Adds groups after the others, in order.
    pub fn groups(self, groups: Vec<SoryNavGroup<E, Message>>) -> (r: Self)
        ensures
            r == (SoryNav { groups: r.groups, ..self }),
            r.groups@ == self.groups@ + groups@,
    {
        let mut s = self;
        let mut more = groups;
        s.groups.append(&mut more);
        s
    }

    /// The bar's width: the collapsed width when collapsed, else the width.
    pub fn effective_width(&self) -> (r: Length)
        ensures
            r == (if self.collapsed { fixed_length(self.collapsed_width) } else { self.width }),
    {
        if self.collapsed {
            length_from_units(self.collapsed_width)
        } else {
            self.width
        }
    }

    /// What the sidebar shows, top to bottom.
    pub fn layout(self) -> (r: Vec<NavPiece<E, Message>>)
        ensures
            r@ == self.layout_spec(),
    {
        let ghost nav = self;
        let SoryNav { groups, header, footer, search, width: _, height: _, collapsed, collapsed_width: _, on_toggle_collapse, scrollable: _ } = self;
        let mut out: Vec<NavPiece<E, Message>> = Vec::new();
        match header {
            Some(h) => {
                out.push(NavPiece::Header { content: h, compact: collapsed });
            },
            None => {},
        }
        match search {
            Some(s) => {
                if !collapsed {
                    out.push(NavPiece::Search(s));
                }
            },
            None => {},
        }
        match on_toggle_collapse {
            Some(m) => {
                out.push(NavPiece::CollapseToggle { collapsed, on_press: m });
            },
            None => {},
        }
        let ghost head = out@;
        let mut rest = reversed(groups);
        let ghost n = nav.groups@.len();
        while rest.len() > 0
            invariant
                rest@.len() <= n,
                n == nav.groups@.len(),
                collapsed == nav.collapsed,
                forall|i: int| 0 <= i < rest@.len() ==> rest@[i] == nav.groups@[n - 1 - i],
                out@ == head + groups_pieces(nav.groups@.take(n - rest@.len()), collapsed),
            decreases rest@.len(),
        {
            let ghost k = n - rest@.len();
            let g = rest.pop().unwrap();
            assert(g == nav.groups@[k]);
            push_group(&mut out, g, collapsed);
            assert(nav.groups@.take(k + 1).drop_last() =~= nav.groups@.take(k));
        }
        assert(nav.groups@.take(n as int) =~= nav.groups@);
        out.push(NavPiece::Filler);
        match footer {
            Some(f) => {
                out.push(NavPiece::Footer { content: f, compact: collapsed });
            },
            None => {},
        }
        proof {
            let header_s: Seq<NavPiece<E, Message>> = match nav.header {
                Some(h) => seq![NavPiece::Header { content: h, compact: nav.collapsed }],
                None => seq![],
            };
            let search_s: Seq<NavPiece<E, Message>> = match nav.search {
                Some(s) => if nav.collapsed { seq![] } else { seq![NavPiece::Search(s)] },
                None => seq![],
            };
            let toggle_s: Seq<NavPiece<E, Message>> = match nav.on_toggle_collapse {
                Some(m) => seq![NavPiece::CollapseToggle { collapsed: nav.collapsed, on_press: m }],
                None => seq![],
            };
            assert(head =~= header_s + search_s + toggle_s);
            assert(out@ =~= nav.layout_spec());
        }
        out
    }
}

impl<E, Message> Default for SoryNav<E, Message> {
    fn default() -> (r: Self)
        ensures
            r.groups@.len() == 0,
            r.header is None,
            r.footer is None,
            r.search is None,
            r.width == fixed_length(260),
            !r.collapsed,
            r.collapsed_width == 64,
            r.on_toggle_collapse is None,
            r.scrollable,
    {
        Self::new()
    }
}

/// A navigation group under construction.
pub struct SoryNavGroupBuilder<E, Message> {
    pub label: Option<String>,
    pub items: Vec<SoryNavItem<E, Message>>,
    pub separator_after: bool,
    pub collapsible: bool,
    pub collapsed: bool,
    pub on_toggle: Option<Message>,
}

impl<E, Message> SoryNavGroupBuilder<E, Message> {
    /// A group without a caption or elements, that cannot fold.
    pub fn new() -> (r: Self)
        ensures
            r.label is None,
            r.items@.len() == 0,
            !r.separator_after,
            !r.collapsible,
            !r.collapsed,
            r.on_toggle is None,
    {
        SoryNavGroupBuilder {
            label: None,
            items: Vec::new(),
            separator_after: false,
            collapsible: false,
            collapsed: false,
            on_toggle: None,
        }
    }

    /// Sets the group's caption.
    pub fn label(self, label: &str) -> (r: Self)
        ensures
            r == (SoryNavGroupBuilder { label: r.label, ..self }),
            r.label matches Some(l) && l@ == label@,
    {
        SoryNavGroupBuilder { label: Some(String::from_str(label)), ..self }
    }

    /// Adds an element after the others.
    pub fn item(self, item: SoryNavItem<E, Message>) -> (r: Self)
        ensures
            r == (SoryNavGroupBuilder { items: r.items, ..self }),
            r.items@ == self.items@.push(item),
    {
        let mut s = self;
        s.items.push(item);
        s
    }

    /// Adds elements after the others, in order.
    pub fn items(self, items: Vec<SoryNavItem<E, Message>>) -> (r: Self)
        ensures
            r == (SoryNavGroupBuilder { items: r.items, ..self }),
            r.items@ == self.items@ + items@,
    {
        let mut s = self;
        let mut more = items;
        s.items.append(&mut more);
        s
    }

    /// Draws a rule after the group.
    pub fn separator_after(self) -> (r: Self)
        ensures
            r == (SoryNavGroupBuilder { separator_after: true, ..self }),
    {
        SoryNavGroupBuilder { separator_after: true, ..self }
    }

    /// Lets the group fold; its chevron sends `on_toggle`.
    pub fn collapsible(self, on_toggle: Message) -> (r: Self)
        ensures
            r == (SoryNavGroupBuilder { collapsible: true, on_toggle: Some(on_toggle), ..self }),
    {
        SoryNavGroupBuilder { collapsible: true, on_toggle: Some(on_toggle), ..self }
    }

    /// Folds or unfolds the group.
    pub fn collapsed(self, collapsed: bool) -> (r: Self)
        ensures
            r == (SoryNavGroupBuilder { collapsed, ..self }),
    {
        SoryNavGroupBuilder { collapsed, ..self }
    }

    /// The group.
    pub fn build(self) -> (r: SoryNavGroup<E, Message>)
        ensures
            r == (SoryNavGroup {
                label: self.label,
                items: self.items,
                separator_after: self.separator_after,
                collapsible: self.collapsible,
                collapsed: self.collapsed,
                on_toggle: self.on_toggle,
            }),
    {
        SoryNavGroup {
            label: self.label,
            items: self.items,
            separator_after: self.separator_after,
            collapsible: self.collapsible,
            collapsed: self.collapsed,
            on_toggle: self.on_toggle,
        }
    }
}

impl<E, Message> Default for SoryNavGroupBuilder<E, Message> {
    fn default() -> (r: Self)
        ensures
            r.label is None,
            r.items@.len() == 0,
            !r.separator_after,
            !r.collapsible,
            !r.collapsed,
            r.on_toggle is None,
    {
        Self::new()
    }
}

/// A new navigation group.
pub fn nav_group<E, Message>() -> (r: SoryNavGroupBuilder<E, Message>)
    ensures
        r.label is None,
        r.items@.len() == 0,
        !r.separator_after,
        !r.collapsible,
        !r.collapsed,
        r.on_toggle is None,
{
    SoryNavGroupBuilder::new()
}

/// A navigation entry under construction.
pub struct SoryNavEntryBuilder<E, Message> {
    pub entry: SoryNavEntry<E, Message>,
}

/// A new navigation entry with the given label: inactive, enabled, and
/// without a message.
pub fn nav_item<E, Message>(label: E) -> (r: SoryNavEntryBuilder<E, Message>)
    ensures
        r.entry == SoryNavEntry::<E, Message>::bare(label),
{
    SoryNavEntryBuilder {
        entry: SoryNavEntry {
            icon: None,
            label,
            badge: None,
            counter: None,
            tooltip_text: None,
            active: false,
            parent_active: false,
            disabled: false,
            on_press: None,
        },
    }
}

impl<E, Message> SoryNavEntryBuilder<E, Message> {
    pub fn icon(self, icon: E) -> (r: Self)
        ensures
            r.entry == (SoryNavEntry { icon: Some(icon), ..self.entry }),
    {
        SoryNavEntryBuilder { entry: SoryNavEntry { icon: Some(icon), ..self.entry } }
    }

    /// Sets the badge (such as "New").
    pub fn badge(self, badge: E) -> (r: Self)
        ensures
            r.entry == (SoryNavEntry { badge: Some(badge), ..self.entry }),
    {
        SoryNavEntryBuilder { entry: SoryNavEntry { badge: Some(badge), ..self.entry } }
    }

    /// Sets the counter (such as a number of notifications).
    pub fn counter(self, counter: E) -> (r: Self)
        ensures
            r.entry == (SoryNavEntry { counter: Some(counter), ..self.entry }),
    {
        SoryNavEntryBuilder { entry: SoryNavEntry { counter: Some(counter), ..self.entry } }
    }

    /// Sets the tooltip, shown when the bar is collapsed.
    pub fn tooltip(self, tooltip: &str) -> (r: Self)
        ensures
            r.entry == (SoryNavEntry { tooltip_text: r.entry.tooltip_text, ..self.entry }),
            r.entry.tooltip_text matches Some(t) && t@ == tooltip@,
    {
        SoryNavEntryBuilder { entry: SoryNavEntry { tooltip_text: Some(String::from_str(tooltip)), ..self.entry } }
    }

    /// Marks the entry as the selected one.
    pub fn active(self) -> (r: Self)
        ensures
            r.entry == (SoryNavEntry { active: true, ..self.entry }),
    {
        SoryNavEntryBuilder { entry: SoryNavEntry { active: true, ..self.entry } }
    }

    /// Marks the entry as the parent of the selected one.
    pub fn parent_active(self) -> (r: Self)
        ensures
            r.entry == (SoryNavEntry { parent_active: true, ..self.entry }),
    {
        SoryNavEntryBuilder { entry: SoryNavEntry { parent_active: true, ..self.entry } }
    }

    pub fn disabled(self) -> (r: Self)
        ensures
            r.entry == (SoryNavEntry { disabled: true, ..self.entry }),
    {
        SoryNavEntryBuilder { entry: SoryNavEntry { disabled: true, ..self.entry } }
    }

    /// Sets the message of a press.
    pub fn on_press(self, msg: Message) -> (r: Self)
        ensures
            r.entry == (SoryNavEntry { on_press: Some(msg), ..self.entry }),
    {
        SoryNavEntryBuilder { entry: SoryNavEntry { on_press: Some(msg), ..self.entry } }
    }

    /// The entry, as a top-level entry.
    pub fn build(self) -> (r: SoryNavItem<E, Message>)
        ensures
            r == SoryNavItem::Item(self.entry),
    {
        SoryNavItem::Item(self.entry)
    }

    /// The entry, as a sub-entry.
    pub fn build_sub(self) -> (r: SoryNavItem<E, Message>)
        ensures
            r == SoryNavItem::SubItem(self.entry),
    {
        SoryNavItem::SubItem(self.entry)
    }
}

/// The sidebar toggle of a header: a hamburger (☰) that opens a collapsed
/// bar, or a cross (✕) that collapses an open one.
pub struct NavToggleButton<Message> {
    pub glyph: char,
    pub on_press: Message,
}

/// The sidebar toggle for a bar in the given state.
pub fn nav_toggle_button<Message>(collapsed: bool, on_press: Message) -> (r: NavToggleButton<Message>)
    ensures
        r.glyph == (if collapsed { '☰' } else { '✕' }),
        r.on_press == on_press,
{
    NavToggleButton { glyph: if collapsed { '☰' } else { '✕' }, on_press }
}

/// The footer of a sidebar: any content, or a logo beside the name of the
/// distribution.
pub enum NavFooter<E> {
    Content(E),
    Brand { logo: E, name: String },
}

/// A sidebar footer around some content.
pub fn nav_footer<E>(content: E) -> (r: NavFooter<E>)
    ensures
        r == NavFooter::Content(content),
{
    NavFooter::Content(content)
}

/// A sidebar footer with a logo and the distribution's name.
pub fn nav_footer_brand<E>(logo: E, brand_name: &str) -> (r: NavFooter<E>)
    ensures
        r matches NavFooter::Brand { logo: l, name } && l == logo && name@ == brand_name@,
{
    NavFooter::Brand { logo, name: String::from_str(brand_name) }
}

/// A counter badge: its text in a chip, padded 2 by 8.
pub struct NavCounter {
    pub text: String,
    pub padding: Padding,
}

/// A counter badge showing `count`.
pub fn nav_counter(count: &str) -> (r: NavCounter)
    ensures
        r.text@ == count@,
        r.padding == padding_vh(2, 8),
{
    NavCounter { text: String::from_str(count), padding: padding_from_vh(2, 8) }
}

} // verus!
