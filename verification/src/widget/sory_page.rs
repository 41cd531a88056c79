//! Page building blocks of the SoryOS look: a page header and a stack of
//! pages of which one is shown.
use vstd::prelude::*;

verus! {

/// A page's header: a title, and optionally a subtitle, an icon, actions
/// and a breadcrumb trail above the title.
pub struct SoryPageHeader<E> {
    pub title: E,
    pub subtitle: Option<E>,
    pub icon: Option<E>,
    pub actions: Vec<E>,
    pub breadcrumb: Option<E>,
}

impl<E> SoryPageHeader<E> {
    /// A header with only a title.
    pub fn new(title: E) -> (r: Self)
        ensures
            r.title == title,
            r.subtitle is None,
            r.icon is None,
            r.actions@.len() == 0,
            r.breadcrumb is None,
    {
        SoryPageHeader { title, subtitle: None, icon: None, actions: Vec::new(), breadcrumb: None }
    }

    pub fn subtitle(self, subtitle: E) -> (r: Self)
        ensures
            r == (SoryPageHeader { subtitle: Some(subtitle), ..self }),
    {
        SoryPageHeader { subtitle: Some(subtitle), ..self }
    }

    pub fn icon(self, icon: E) -> (r: Self)
        ensures
            r == (SoryPageHeader { icon: Some(icon), ..self }),
    {
        SoryPageHeader { icon: Some(icon), ..self }
    }

    /// Adds an action (a button) after the others.
    pub fn action(self, action: E) -> (r: Self)
        ensures
            r == (SoryPageHeader { actions: r.actions, ..self }),
            r.actions@ == self.actions@.push(action),
    {
        let mut s = self;
        s.actions.push(action);
        s
    }

    pub fn breadcrumb(self, breadcrumb: E) -> (r: Self)
        ensures
            r == (SoryPageHeader { breadcrumb: Some(breadcrumb), ..self }),
    {
        SoryPageHeader { breadcrumb: Some(breadcrumb), ..self }
    }
}

/// A piece of a header's title row.
pub enum HeaderPiece<E> {
    Icon(E),
    /// The title, with the subtitle below it.
    Titles(E, Option<E>),
    Action(E),
}

/// What a page header shows: the breadcrumb trail on top, then the title
/// row: the icon, the titles, and the actions in order.
pub struct PageHeaderLayout<E> {
    pub breadcrumb: Option<E>,
    pub title_row: Vec<HeaderPiece<E>>,
}

pub open spec fn title_row_spec<E>(h: SoryPageHeader<E>) -> Seq<HeaderPiece<E>> {
    let icon = match h.icon {
        Some(i) => seq![HeaderPiece::Icon(i)],
        None => Seq::empty(),
    };
    icon + seq![HeaderPiece::Titles(h.title, h.subtitle)]
        + h.actions@.map_values(|a: E| HeaderPiece::Action(a))
}

impl<E> SoryPageHeader<E> {
    /// The header's layout.
    pub fn layout(self) -> (r: PageHeaderLayout<E>)
        ensures
            r.breadcrumb == self.breadcrumb,
            r.title_row@ == title_row_spec(self),
    {
        let ghost h = self;
        let mut row: Vec<HeaderPiece<E>> = Vec::new();
        match self.icon {
            Some(i) => row.push(HeaderPiece::Icon(i)),
            None => {},
        }
        row.push(HeaderPiece::Titles(self.title, self.subtitle));
        let ghost head = row@;
        let ghost all = h.actions@;
        let mut rest = self.actions;
        let mut n: usize = 0;
        proof {
            assert(all.len() == rest.len());
            assert(row@ =~= head + all.take(0).map_values(|a: E| HeaderPiece::Action(a)));
        }
        while rest.len() > 0
            invariant
                n + rest@.len() == all.len(),
                all.len() <= usize::MAX,
                rest@ == all.skip(n as int),
                row@ == head + all.take(n as int).map_values(|a: E| HeaderPiece::Action(a)),
            decreases rest.len(),
        {
            let a = rest.remove(0);
            proof {
                assert(a == all[n as int]) by {
                    assert(all.skip(n as int)[0] == all[n as int]);
                }
                assert(rest@ =~= all.skip(n + 1));
            }
            row.push(HeaderPiece::Action(a));
            proof {
                assert(row@ =~= head + all.take(n + 1).map_values(|a: E| HeaderPiece::Action(a)));
            }
            n = n + 1;
        }
        proof {
            assert(all.take(all.len() as int) =~= all);
            let icon = match h.icon {
                Some(i) => seq![HeaderPiece::Icon(i)],
                None => Seq::empty(),
            };
            assert(head =~= icon + seq![HeaderPiece::Titles(h.title, h.subtitle)]);
        }
        PageHeaderLayout { breadcrumb: self.breadcrumb, title_row: row }
    }
}

/// The cell at row `r` and column `c` of a grid of `columns` columns
/// filled row by row from `items`: the item at `r * columns + c`, or an
/// empty filler past the last item.
pub open spec fn grid_cell<E>(items: Seq<E>, columns: nat, r: int, c: int) -> Option<E> {
    if r * columns + c < items.len() {
        Some(items[r * columns + c])
    } else {
        None
    }
}

/// The rows of a grid of `columns` columns (a responsive grid of a page, or
/// a group of cards): the items in order, row by row, the last row filled
/// up with empty cells. There are just enough rows for the items.
pub fn sory_grid_rows<E>(columns: usize, items: Vec<E>) -> (r: Vec<Vec<Option<E>>>)
    requires
        columns > 0,
    ensures
        items@.len() == 0 ==> r@.len() == 0,
        items@.len() > 0 ==> (r@.len() - 1) * columns < items@.len() <= r@.len() * columns,
        forall|i: int| 0 <= i < r@.len() ==> (#[trigger] r@[i])@.len() == columns,
        forall|i: int, c: int| 0 <= i < r@.len() && 0 <= c < columns
            ==> #[trigger] r@[i]@[c] == grid_cell(items@, columns as nat, i, c),
{
    let ghost all = items@;
    let n = items.len();
    let mut rest = items;
    let mut rows: Vec<Vec<Option<E>>> = Vec::new();
    let mut taken: usize = 0;
    proof {
        assert(rows@.len() * columns == 0) by (nonlinear_arith)
            requires
                rows@.len() == 0;
    }
    while rest.len() > 0
        invariant
            columns > 0,
            n == all.len(),
            taken <= n,
            rest@ == all.skip(taken as int),
            rest.len() > 0 ==> taken == rows@.len() * columns,
            rows@.len() > 0 ==> (rows@.len() - 1) * columns < taken,
            taken == n || taken == rows@.len() * columns,
            taken <= rows@.len() * columns,
            forall|i: int| 0 <= i < rows@.len() ==> (#[trigger] rows@[i])@.len() == columns,
            forall|i: int, c: int| 0 <= i < rows@.len() && 0 <= c < columns
                ==> #[trigger] rows@[i]@[c] == grid_cell(all, columns as nat, i, c),
        decreases rest.len(),
    {
        let ghost k = rows@.len() as int;
        let ghost start = taken as int;
        proof {
            assert(start == k * columns);
        }
        let mut row: Vec<Option<E>> = Vec::new();
        let mut c: usize = 0;
        while c < columns
            invariant
                columns > 0,
                n == all.len(),
                c <= columns,
                row@.len() == c,
                start == k * columns,
                start < n,
                taken <= n,
                taken == start + c || (taken == n && start + c > n),
                taken <= start + c,
                rest@ == all.skip(taken as int),
                forall|j: int| 0 <= j < c ==> (#[trigger] row@[j]) == grid_cell(all, columns as nat, k, j),
            decreases columns - c,
        {
            proof {
                assert(k * columns + c == start + c);
            }
            if rest.len() > 0 {
                let item = rest.remove(0);
                proof {
                    assert(taken == start + c);
                    assert(item == all[taken as int]) by {
                        assert(all.skip(taken as int)[0] == all[taken as int]);
                    }
                    assert(rest@ =~= all.skip(taken + 1));
                }
                row.push(Some(item));
                taken = taken + 1;
            } else {
                proof {
                    assert(all.skip(taken as int).len() == 0);
                    assert(taken == n);
                }
                row.push(None);
            }
            c = c + 1;
        }
        let ghost before = rows@;
        rows.push(row);
        proof {
            assert((k + 1) * columns == k * columns + columns) by (nonlinear_arith);
            assert forall|i: int, j: int| 0 <= i < rows@.len() && 0 <= j < columns
                implies #[trigger] rows@[i]@[j] == grid_cell(all, columns as nat, i, j) by {
                if i < k {
                    assert(rows@[i] == before[i]);
                }
            }
            assert forall|i: int| 0 <= i < rows@.len() implies (#[trigger] rows@[i])@.len() == columns by {
                if i < k {
                    assert(rows@[i] == before[i]);
                }
            }
        }
    }
    proof {
        assert(all.skip(taken as int).len() == 0);
    }
    rows
}

/// A page's main content, scrolled inside the page's padding.
pub struct PageContent<E> {
    pub content: E,
    pub scrollable: bool,
}

/// The main content of a page, scrollable.
pub fn sory_page_content<E>(content: E) -> (r: PageContent<E>)
    ensures
        r.content == content,
        r.scrollable,
{
    PageContent { content, scrollable: true }
}

/// A section: a heading, a separator line below it, then the content.
pub struct PageSection<E> {
    pub title: String,
    pub content: E,
}

/// A section with a heading above its content.
pub fn sory_section<E>(title: &str, content: E) -> (r: PageSection<E>)
    ensures
        r.title@ == title@,
        r.content == content,
{
    PageSection { title: String::from_str(title), content }
}

/// An empty state: an icon, a title and a description, centred, and an
/// action below them when there is one.
pub struct EmptyState<E> {
    pub icon: E,
    pub title: String,
    pub description: String,
    pub action: Option<E>,
}

/// An empty state without an action.
pub fn sory_empty_state<E>(icon: E, title: &str, description: &str) -> (r: EmptyState<E>)
    ensures
        r.icon == icon,
        r.title@ == title@,
        r.description@ == description@,
        r.action is None,
{
    EmptyState { icon, title: String::from_str(title), description: String::from_str(description), action: None }
}

/// An empty state with an action (a button) below the description.
pub fn sory_empty_state_with_action<E>(icon: E, title: &str, description: &str, action: E) -> (r: EmptyState<E>)
    ensures
        r.icon == icon,
        r.title@ == title@,
        r.description@ == description@,
        r.action == Some(action),
{
    EmptyState {
        icon,
        title: String::from_str(title),
        description: String::from_str(description),
        action: Some(action),
    }
}

/// A loading state: a spinner above a message.
pub struct LoadingState {
    pub message: String,
}

/// A loading state with a message.
pub fn sory_loading_state(message: &str) -> (r: LoadingState)
    ensures
        r.message@ == message@,
{
    LoadingState { message: String::from_str(message) }
}

/// A stack of pages for backward navigation: one page, the current one, is
/// shown.
pub struct SoryPageStack<E, Message> {
    pub pages: Vec<E>,
    pub current: usize,
    pub on_back: Option<Message>,
}

/// The index that `current(index)` keeps for a stack of `len` pages: the
/// index, at most the last page's (0 for an empty stack).
pub open spec fn clamp_index(index: int, len: int) -> int {
    let last = if len > 0 { len - 1 } else { 0 };
    if index < last { index } else { last }
}

/// Choosing a page of a stack that has pages always selects one of them:
/// the page asked for when it exists, and the last page otherwise.
pub proof fn lemma_current_selects_a_page(index: int, len: int)
    requires
        0 <= index,
        0 < len,
    ensures
        0 <= clamp_index(index, len) < len,
        index < len ==> clamp_index(index, len) == index,
        index >= len ==> clamp_index(index, len) == len - 1,
{
}

impl<E, Message> SoryPageStack<E, Message> {
    /// An empty stack.
    pub fn new() -> (r: Self)
        ensures
            r.pages@.len() == 0,
            r.current == 0,
            r.on_back is None,
    {
        SoryPageStack { pages: Vec::new(), current: 0, on_back: None }
    }

    /// Adds a page on top.
    pub fn page(self, page: E) -> (r: Self)
        ensures
            r.pages@ == self.pages@.push(page),
            r.current == self.current,
            r.on_back == self.on_back,
    {
        let mut s = self;
        s.pages.push(page);
        s
    }

    /// Makes the page at `index` current; an index past the last page
    /// selects the last page.
    pub fn current(self, index: usize) -> (r: Self)
        ensures
            r.pages == self.pages,
            r.on_back == self.on_back,
            r.current == clamp_index(index as int, self.pages@.len() as int),
    {
        let last = self.pages.len().saturating_sub(1);
        let c = if index < last { index } else { last };
        SoryPageStack { current: c, ..self }
    }

    /// Sets the message of backward navigation.
    pub fn on_back(self, msg: Message) -> (r: Self)
        ensures
            r.pages == self.pages,
            r.current == self.current,
            r.on_back == Some(msg),
    {
        SoryPageStack { on_back: Some(msg), ..self }
    }

    /// The page shown: the current one, or none (an empty-state placeholder
    /// is shown then) when the index is past the last page.
    pub fn into_current_page(self) -> (r: Option<E>)
        ensures
            self.current < self.pages@.len() ==> r == Some(self.pages@[self.current as int]),
            self.current >= self.pages@.len() ==> r is None,
    {
        let mut pages = self.pages;
        let c = self.current;
        if c < pages.len() {
            pages.truncate(c + 1);
            pages.pop()
        } else {
            None
        }
    }
}

} // verus!
