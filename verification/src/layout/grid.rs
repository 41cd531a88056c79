//! Grid layout: children fill rows of a fixed number of columns, each
//! taking one column or the columns of its span.
use vstd::prelude::*;

verus! {

/// How many columns a grid child spans.
#[derive(Debug, Clone, Copy)]
pub struct GridSpan(pub usize);

/// Where the packing stands: the current row, the columns used in it, and
/// how many children it holds.
pub struct PackState {
    pub row: nat,
    pub col: nat,
    pub count: nat,
}

/// Places one child of span `s` (already capped to `cols`).
pub open spec fn pack_step(st: PackState, s: nat, cols: nat) -> (nat, PackState) {
    let st1 = if st.col + s > cols {
        PackState { row: if st.count > 0 { st.row + 1 } else { st.row }, col: 0, count: 0 }
    } else {
        st
    };
    let placed = st1.row;
    let st2 = PackState { row: st1.row, col: st1.col + s, count: st1.count + 1 };
    let st3 = if st2.col >= cols {
        PackState { row: st2.row + 1, col: 0, count: 0 }
    } else {
        st2
    };
    (placed, st3)
}

/// The span a child takes in a grid of `cols` columns (at least one column).
pub open spec fn capped_span(span: Option<GridSpan>, cols: nat) -> nat {
    match span {
        Some(GridSpan(n)) => if n < cols {
            n as nat
        } else {
            cols
        },
        None => 1,
    }
}

pub open spec fn effective_columns(columns: usize) -> nat {
    if columns < 1 {
        1
    } else {
        columns as nat
    }
}

/// Packs the children in order: the row of each child, and the final state.
pub open spec fn pack(spans: Seq<Option<GridSpan>>, cols: nat) -> (Seq<nat>, PackState)
    decreases spans.len(),
{
    if spans.len() == 0 {
        (Seq::empty(), PackState { row: 0, col: 0, count: 0 })
    } else {
        let (rows, st) = pack(spans.drop_last(), cols);
        let (placed, st2) = pack_step(st, capped_span(spans.last(), cols), cols);
        (rows.push(placed), st2)
    }
}

pub proof fn lemma_pack_len(spans: Seq<Option<GridSpan>>, cols: nat)
    ensures
        pack(spans, cols).0.len() == spans.len(),
    decreases spans.len(),
{
    if spans.len() > 0 {
        lemma_pack_len(spans.drop_last(), cols);
    }
}

/// How many columns the children placed in row `r` take.
pub open spec fn row_width(spans: Seq<Option<GridSpan>>, rows: Seq<nat>, r: nat, cols: nat) -> nat
    decreases spans.len(),
{
    if spans.len() == 0 || rows.len() == 0 {
        0
    } else {
        row_width(spans.drop_last(), rows.drop_last(), r, cols) + if rows.last() == r {
            capped_span(spans.last(), cols)
        } else {
            0
        }
    }
}

/// What holds of the packing after each child.
pub open spec fn pack_inv(spans: Seq<Option<GridSpan>>, cols: nat, rows: Seq<nat>, st: PackState) -> bool {
    &&& rows.len() == spans.len()
    &&& st.col < cols
    &&& st.col == row_width(spans, rows, st.row, cols)
    &&& st.col > 0 ==> st.count > 0
    &&& forall|i: int| 0 <= i < rows.len() ==> rows[i] <= st.row
    &&& st.count > 0 ==> rows.len() > 0 && rows.last() == st.row
    &&& st.count == 0 ==> (if rows.len() == 0 { st.row == 0 } else { rows.last() + 1 == st.row })
    &&& forall|i: int, j: int| 0 <= i < j < rows.len() ==> rows[i] <= rows[j]
    &&& forall|i: int, j: int| 0 <= i < j < rows.len() ==> rows[j] <= rows[i] + (j - i)
    &&& rows.len() > 0 ==> rows[0] == 0
    &&& forall|r: nat| row_width(spans, rows, r, cols) <= cols
}

proof fn lemma_row_width_above(spans: Seq<Option<GridSpan>>, rows: Seq<nat>, r: nat, cols: nat)
    requires
        rows.len() == spans.len(),
        forall|i: int| 0 <= i < rows.len() ==> rows[i] < r,
    ensures
        row_width(spans, rows, r, cols) == 0,
    decreases spans.len(),
{
    if spans.len() > 0 {
        lemma_row_width_above(spans.drop_last(), rows.drop_last(), r, cols);
    }
}

proof fn lemma_pack_inv(spans: Seq<Option<GridSpan>>, cols: nat)
    requires
        cols >= 1,
    ensures
        pack_inv(spans, cols, pack(spans, cols).0, pack(spans, cols).1),
    decreases spans.len(),
{
    if spans.len() == 0 {
        return;
    }
    let t = spans.drop_last();
    lemma_pack_inv(t, cols);
    let (rows0, st) = pack(t, cols);
    let s = capped_span(spans.last(), cols);
    let (placed, st3) = pack_step(st, s, cols);
    let rows = rows0.push(placed);
    assert(pack(spans, cols) == (rows, st3));
    assert(rows.drop_last() == rows0);
    let st1 = if st.col + s > cols {
        PackState { row: if st.count > 0 { st.row + 1 } else { st.row }, col: 0, count: 0 }
    } else {
        st
    };
    assert(placed == st1.row);
    if st.col + s > cols {
        assert(st.count > 0);
        lemma_row_width_above(t, rows0, placed, cols);
    }
    assert(row_width(spans, rows, placed, cols) == st1.col + s);
    assert forall|r: nat| r != placed implies row_width(spans, rows, r, cols) == row_width(t, rows0, r, cols) by {}
    assert forall|r: nat| row_width(spans, rows, r, cols) <= cols by {
        if r != placed {
            assert(row_width(t, rows0, r, cols) <= cols);
        }
    }
    if st3.row != placed {
        assert forall|i: int| 0 <= i < rows.len() implies rows[i] < st3.row by {
            if i < rows0.len() {
                assert(rows[i] == rows0[i]);
            }
        }
        lemma_row_width_above(spans, rows, st3.row, cols);
    }
    assert forall|i: int, j: int| 0 <= i < j < rows.len() implies rows[i] <= rows[j] by {
        assert(rows[i] == rows0[i]);
        if j < rows0.len() {
            assert(rows[j] == rows0[j]);
        }
    }
    assert forall|i: int, j: int| 0 <= i < j < rows.len() implies rows[j] <= rows[i] + (j - i) by {
        assert(rows[i] == rows0[i]);
        if j < rows0.len() {
            assert(rows[j] == rows0[j]);
        } else if i < rows0.len() - 1 {
            assert(rows0[rows0.len() - 1] <= rows0[i] + (rows0.len() - 1 - i));
        }
    }
}

/// The grid law. In a grid of `columns` columns (at least one), the rows of
/// the children, in order, start at row 0, never go back, and never skip a
/// row (from one child to a later one the row grows by at most their
/// distance); and no row holds children whose spans add up to more columns than
/// the grid has.
pub proof fn lemma_grid_rows_fit(spans: Seq<Option<GridSpan>>, columns: usize)
    ensures
        pack(spans, effective_columns(columns)).0.len() == spans.len(),
        spans.len() > 0 ==> pack(spans, effective_columns(columns)).0[0] == 0,
        forall|i: int, j: int| 0 <= i < j < spans.len()
            ==> pack(spans, effective_columns(columns)).0[i] <= pack(spans, effective_columns(columns)).0[j],
        forall|i: int, j: int| 0 <= i < j < spans.len()
            ==> pack(spans, effective_columns(columns)).0[j] <= pack(spans, effective_columns(columns)).0[i] + (j - i),
        forall|r: nat| row_width(spans, pack(spans, effective_columns(columns)).0, r, effective_columns(columns))
            <= effective_columns(columns),
{
    lemma_pack_inv(spans, effective_columns(columns));
}

/// The row of each child of a grid with `columns` columns (at least one),
/// given the span of each child (`None` for one column). A child that does
/// not fit in what is left of a row starts the next one; a row that is full
/// ends.
pub fn grid_rows(columns: usize, spans: &Vec<Option<GridSpan>>) -> (r: Vec<usize>)
    ensures
        r@.len() == spans@.len(),
        forall|i: int| 0 <= i < r@.len() ==> r@[i] == (#[trigger] pack(spans@, effective_columns(columns)).0[i]),
{
    let cols: usize = if columns < 1 { 1 } else { columns };
    let ghost c = effective_columns(columns);
    let mut rows: Vec<usize> = Vec::new();
    let mut row: usize = 0;
    let mut col: usize = 0;
    let mut count: usize = 0;
    let mut i: usize = 0;
    while i < spans.len()
        invariant
            i <= spans.len(),
            cols == c,
            cols >= 1,
            row + count <= i,
            col < cols,
            count <= i,
            pack(spans@.take(i as int), c).1 == (PackState { row: row as nat, col: col as nat, count: count as nat }),
            rows@.len() == i,
            forall|j: int| 0 <= j < i ==> rows@[j] == (#[trigger] pack(spans@.take(i as int), c).0[j]),
        decreases spans.len() - i,
    {
        let span: usize = match spans[i] {
            Some(GridSpan(n)) => if n < cols { n } else { cols },
            None => 1,
        };
        proof {
            assert(spans@.take(i + 1).drop_last() =~= spans@.take(i as int));
            assert(spans@.take(i + 1).last() == spans@[i as int]);
        }
        if span > cols - col {
            if count > 0 {
                row = row + 1;
            }
            col = 0;
            count = 0;
        }
        rows.push(row);
        col = col + span;
        count = count + 1;
        if col >= cols {
            row = row + 1;
            col = 0;
            count = 0;
        }
        proof {
            lemma_pack_len(spans@.take(i as int), c);
            let prev = pack(spans@.take(i as int), c);
            assert(pack(spans@.take(i + 1), c).0 == prev.0.push(pack_step(prev.1, capped_span(spans@[i as int], c), c).0));
            assert forall|j: int| 0 <= j < i + 1 implies rows@[j] == (#[trigger] pack(spans@.take(i + 1), c).0[j]) by {
                if j < i {
                    assert(pack(spans@.take(i + 1), c).0[j] == prev.0[j]);
                }
            }
        }
        i = i + 1;
    }
    proof {
        assert(spans@.take(spans@.len() as int) =~= spans@);
    }
    rows
}

/// The children grouped into rows: each child joins the last row when its
/// row number is that row's, and starts a new row otherwise.
pub open spec fn group_rows<E>(items: Seq<E>, rows: Seq<nat>) -> Seq<Seq<E>>
    decreases items.len(),
{
    if items.len() == 0 || rows.len() == 0 {
        Seq::empty()
    } else {
        let g = group_rows(items.drop_last(), rows.drop_last());
        if g.len() > 0 && rows.last() + 1 == g.len() {
            g.update(g.len() - 1, g.last().push(items.last()))
        } else {
            g.push(seq![items.last()])
        }
    }
}

pub open spec fn vec_views<E>(v: Seq<Vec<E>>) -> Seq<Seq<E>> {
    v.map_values(|x: Vec<E>| x@)
}

/// A grid: its number of columns, the gap between rows and between
/// children (in whole pixels), and its children with their spans.
pub struct Grid<E> {
    pub columns: usize,
    pub gap: u16,
    pub children: Vec<(E, Option<GridSpan>)>,
}

/// What a grid shows: its rows, in order, with the gap between them and
/// between the children of a row.
pub struct GridLayout<E> {
    pub gap: u16,
    pub rows: Vec<Vec<E>>,
}

pub open spec fn child_elems<E>(c: Seq<(E, Option<GridSpan>)>) -> Seq<E> {
    c.map_values(|x: (E, Option<GridSpan>)| x.0)
}

pub open spec fn child_spans<E>(c: Seq<(E, Option<GridSpan>)>) -> Seq<Option<GridSpan>> {
    c.map_values(|x: (E, Option<GridSpan>)| x.1)
}

impl<E> Grid<E> {
    /// An empty grid of `columns` columns, without gaps.
    pub fn new(columns: usize) -> (r: Self)
        ensures
            r.columns == columns,
            r.gap == 0,
            r.children@.len() == 0,
    {
        Grid { columns, gap: 0, children: Vec::new() }
    }

    /// Sets the gap.
    pub fn gap(self, gap: u16) -> (r: Self)
        ensures
            r.columns == self.columns,
            r.gap == gap,
            r.children == self.children,
    {
        Grid { gap, ..self }
    }

    /// Adds a child taking one column.
    pub fn push(self, child: E) -> (r: Self)
        ensures
            r.columns == self.columns,
            r.gap == self.gap,
            r.children@ == self.children@.push((child, None::<GridSpan>)),
    {
        let mut s = self;
        s.children.push((child, None));
        s
    }

    /// Adds a child taking the columns of its span (all of them at most).
    pub fn push_span(self, child: E, span: GridSpan) -> (r: Self)
        ensures
            r.columns == self.columns,
            r.gap == self.gap,
            r.children@ == self.children@.push((child, Some(span))),
    {
        let mut s = self;
        s.children.push((child, Some(span)));
        s
    }

    /// The grid's rows: the children in order, grouped by the row the
    /// packing gives each (see `lemma_grid_rows_fit`).
    pub fn layout(self) -> (r: GridLayout<E>)
        ensures
            r.gap == self.gap,
            vec_views(r.rows@) == group_rows(
                child_elems(self.children@),
                pack(child_spans(self.children@), effective_columns(self.columns)).0,
            ),
    {
        let ghost all = self.children@;
        let mut spans: Vec<Option<GridSpan>> = Vec::new();
        let mut k: usize = 0;
        while k < self.children.len()
            invariant
                k <= self.children@.len(),
                all == self.children@,
                spans@ == child_spans(all).take(k as int),
            decreases self.children.len() - k,
        {
            spans.push(self.children[k].1);
            proof {
                assert(child_spans(all).take(k + 1) =~= child_spans(all).take(k as int).push(all[k as int].1));
            }
            k = k + 1;
        }
        proof {
            assert(child_spans(all).take(all.len() as int) =~= child_spans(all));
        }
        let rows_of = grid_rows(self.columns, &spans);
        let ghost packed = pack(child_spans(all), effective_columns(self.columns)).0;
        proof {
            lemma_pack_len(child_spans(all), effective_columns(self.columns));
            assert(rows_of@.len() == packed.len());
        }
        let ghost elems = child_elems(all);
        let mut rest = self.children;
        let mut out: Vec<Vec<E>> = Vec::new();
        let mut n: usize = 0;
        proof {
            assert(elems.take(0) =~= Seq::<E>::empty());
            assert(vec_views(out@) =~= group_rows(elems.take(0), packed.take(0)));
        }
        while rest.len() > 0
            invariant
                n + rest@.len() == all.len(),
                all.len() <= usize::MAX,
                rest@ == all.skip(n as int),
                rows_of@.len() == all.len(),
                packed.len() == all.len(),
                elems == child_elems(all),
                forall|j: int| 0 <= j < rows_of@.len() ==> rows_of@[j] == (#[trigger] packed[j]),
                vec_views(out@) == group_rows(elems.take(n as int), packed.take(n as int)),
            decreases rest.len(),
        {
            let (e, _span) = rest.remove(0);
            let row = rows_of[n];
            proof {
                assert(all.skip(n as int)[0] == all[n as int]);
                assert(e == elems[n as int]);
                assert(rest@ =~= all.skip(n + 1));
                assert(elems.take(n + 1).drop_last() =~= elems.take(n as int));
                assert(packed.take(n + 1).drop_last() =~= packed.take(n as int));
                assert(elems.take(n + 1).last() == e);
                assert(packed.take(n + 1).last() == row);
            }
            let ghost g = vec_views(out@);
            if out.len() > 0 && row == out.len() - 1 {
                let mut last = out.pop().unwrap();
                let ghost before_last = last@;
                last.push(e);
                out.push(last);
                proof {
                    assert(vec_views(out@) =~= g.update(g.len() - 1, g.last().push(e)));
                }
            } else {
                let mut fresh: Vec<E> = Vec::new();
                fresh.push(e);
                out.push(fresh);
                proof {
                    assert(vec_views(out@) =~= g.push(seq![e]));
                }
            }
            n = n + 1;
        }
        proof {
            assert(elems.take(all.len() as int) =~= elems);
            assert(packed.take(all.len() as int) =~= packed);
        }
        GridLayout { gap: self.gap, rows: out }
    }
}

} // verus!
