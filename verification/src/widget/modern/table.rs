//! Data tables: column headers and rows of text cells.
use vstd::prelude::*;
use iced_core::Length;
use crate::measure::length_fill;

verus! {

/// A row of text cells.
pub struct TableRow {
    pub cells: Vec<String>,
}

impl TableRow {
    /// A row with no cells.
    pub fn new() -> (r: Self)
        ensures
            r.cells@.len() == 0,
    {
        TableRow { cells: Vec::new() }
    }

    /// Adds a cell at the end of the row.
    pub fn push_cell(self, cell: &str) -> (r: Self)
        ensures
            r.cells@.len() == self.cells@.len() + 1,
            r.cells@.drop_last() == self.cells@,
            r.cells@.last()@ == cell@,
    {
        let mut s = self;
        s.cells.push(String::from_str(cell));
        proof {
            assert(s.cells@.drop_last() =~= self.cells@);
        }
        s
    }

    /// The text of the cell in a column; empty for a column the row has no
    /// cell for.
    pub fn cell_text(&self, column: usize) -> (r: String)
        ensures
            column < self.cells@.len() ==> r@ == self.cells@[column as int]@,
            column >= self.cells@.len() ==> r@.len() == 0,
    {
        if column < self.cells.len() {
            self.cells[column].clone()
        } else {
            String::new()
        }
    }
}

/// A column: its header and width.
pub struct TableColumn {
    pub header: String,
    pub width: Length,
}

impl TableColumn {
    /// A full-width column with a header.
    pub fn new(header: &str) -> (r: Self)
        ensures
            r.header@ == header@,
    {
        TableColumn { header: String::from_str(header), width: length_fill() }
    }

    pub fn width(self, width: Length) -> (r: Self)
        ensures
            r.header == self.header,
            r.width == width,
    {
        TableColumn { width, ..self }
    }
}

/// A table: columns, rows, and the function `F` that makes a `Message`
/// from the index of a clicked row.
pub struct ModernTable<Message, F> {
    pub columns: Vec<TableColumn>,
    pub rows: Vec<TableRow>,
    pub on_row_click: Option<F>,
    pub message: core::marker::PhantomData<Message>,
}

impl<Message, F> ModernTable<Message, F> {
    /// An empty table.
    pub fn new() -> (r: Self)
        ensures
            r.columns@.len() == 0,
            r.rows@.len() == 0,
            r.on_row_click is None,
    {
        ModernTable { columns: Vec::new(), rows: Vec::new(), on_row_click: None, message: core::marker::PhantomData }
    }

    /// Adds a column.
    pub fn column(self, col: TableColumn) -> (r: Self)
        ensures
            r.columns@ == self.columns@.push(col),
            r.rows == self.rows,
            r.on_row_click == self.on_row_click,
    {
        let mut s = self;
        s.columns.push(col);
        s
    }

    /// Adds columns, in order.
    pub fn columns(self, cols: Vec<TableColumn>) -> (r: Self)
        ensures
            r.columns@ == self.columns@ + cols@,
            r.rows == self.rows,
            r.on_row_click == self.on_row_click,
    {
        let mut s = self;
        let mut more = cols;
        s.columns.append(&mut more);
        s
    }

    /// Adds a row.
    pub fn row(self, row: TableRow) -> (r: Self)
        ensures
            r.rows@ == self.rows@.push(row),
            r.columns == self.columns,
            r.on_row_click == self.on_row_click,
    {
        let mut s = self;
        s.rows.push(row);
        s
    }

    /// Adds rows, in order.
    pub fn rows(self, rows: Vec<TableRow>) -> (r: Self)
        ensures
            r.rows@ == self.rows@ + rows@,
            r.columns == self.columns,
            r.on_row_click == self.on_row_click,
    {
        let mut s = self;
        let mut more = rows;
        s.rows.append(&mut more);
        s
    }

    /// Sets the function that makes the message for a clicked row, from its
    /// index.
    pub fn on_row_click<G: Fn(usize) -> Message>(self, f: G) -> (r: ModernTable<Message, G>)
        ensures
            r.columns == self.columns,
            r.rows == self.rows,
            r.on_row_click == Some(f),
    {
        ModernTable { columns: self.columns, rows: self.rows, on_row_click: Some(f), message: core::marker::PhantomData }
    }
}

/// The text a row shows in a column: its cell, or nothing where it has no
/// cell.
pub open spec fn cell_at(row: TableRow, column: int) -> Seq<char> {
    if column < row.cells@.len() {
        row.cells@[column]@
    } else {
        Seq::empty()
    }
}

/// One data row as a table shows it: one text per column, and the message
/// sent when it is clicked.
pub struct GridRow<Message> {
    pub cells: Vec<String>,
    pub on_press: Option<Message>,
}

/// What a table with columns shows: the header and width of each column,
/// then its rows in order.
pub struct TableGrid<Message> {
    pub headers: Vec<String>,
    pub widths: Vec<Length>,
    pub rows: Vec<GridRow<Message>>,
}

/// `g` shows `row` across `n` columns: the row's cell in each column, an
/// empty text where it has none, and its cells past the last column left
/// out.
pub open spec fn shows_row<M>(g: GridRow<M>, row: TableRow, n: int) -> bool {
    &&& g.cells@.len() == n
    &&& forall|c: int| 0 <= c < n ==> (#[trigger] g.cells@[c])@ == cell_at(row, c)
}

fn grid_cells(row: &TableRow, n: usize) -> (r: Vec<String>)
    ensures
        r@.len() == n,
        forall|c: int| 0 <= c < n ==> (#[trigger] r@[c])@ == cell_at(*row, c),
{
    let mut cells: Vec<String> = Vec::new();
    let mut c: usize = 0;
    while c < n
        invariant
            c <= n,
            cells@.len() == c,
            forall|k: int| 0 <= k < c ==> (#[trigger] cells@[k])@ == cell_at(*row, k),
        decreases n - c,
    {
        let t = row.cell_text(c);
        proof {
            if c >= row.cells@.len() {
                assert(t@ =~= Seq::<char>::empty());
            }
        }
        cells.push(t);
        c = c + 1;
    }
    cells
}

impl<Message, F: Fn(usize) -> Message> ModernTable<Message, F> {
    /// What the table shows: nothing but a notice when it has no columns
    /// (`None`); otherwise the headers and widths of its columns and each
    /// row's texts, a clicked row sending `on_row_click` of its index.
    pub fn layout(&self) -> (r: Option<TableGrid<Message>>)
        requires
            self.on_row_click matches Some(f) ==> forall|i: usize| #[trigger] call_requires(f, (i,)),
        ensures
            r is None <==> self.columns@.len() == 0,
            r matches Some(g) ==> {
                &&& g.headers@.len() == self.columns@.len()
                &&& g.widths@.len() == self.columns@.len()
                &&& forall|c: int| 0 <= c < self.columns@.len()
                    ==> (#[trigger] g.headers@[c])@ == self.columns@[c].header@ && g.widths@[c] == self.columns@[c].width
                &&& g.rows@.len() == self.rows@.len()
                &&& forall|i: int| 0 <= i < self.rows@.len() ==> {
                    &&& shows_row(#[trigger] g.rows@[i], self.rows@[i], self.columns@.len() as int)
                    &&& match self.on_row_click {
                        Some(f) => g.rows@[i].on_press matches Some(m) && call_ensures(f, (i as usize,), m),
                        None => g.rows@[i].on_press is None,
                    }
                }
            },
    {
        let n = self.columns.len();
        if n == 0 {
            return None;
        }
        let mut headers: Vec<String> = Vec::new();
        let mut widths: Vec<Length> = Vec::new();
        let mut c: usize = 0;
        while c < n
            invariant
                n == self.columns@.len(),
                c <= n,
                headers@.len() == c,
                widths@.len() == c,
                forall|k: int| 0 <= k < c
                    ==> (#[trigger] headers@[k])@ == self.columns@[k].header@ && widths@[k] == self.columns@[k].width,
            decreases n - c,
        {
            let h = self.columns[c].header.clone();
            let w = self.columns[c].width;
            proof {
                assert(h@ == self.columns@[c as int].header@);
                assert(w == self.columns@[c as int].width);
            }
            headers.push(h);
            widths.push(w);
            c = c + 1;
        }
        let mut rows: Vec<GridRow<Message>> = Vec::new();
        let mut i: usize = 0;
        while i < self.rows.len()
            invariant
                n == self.columns@.len(),
                i <= self.rows@.len(),
                rows@.len() == i,
                self.on_row_click matches Some(f) ==> forall|j: usize| #[trigger] call_requires(f, (j,)),
                forall|j: int| 0 <= j < i ==> {
                    &&& shows_row(#[trigger] rows@[j], self.rows@[j], n as int)
                    &&& match self.on_row_click {
                        Some(f) => rows@[j].on_press matches Some(m) && call_ensures(f, (j as usize,), m),
                        None => rows@[j].on_press is None,
                    }
                },
            decreases self.rows.len() - i,
        {
            let cells = grid_cells(&self.rows[i], n);
            let on_press = match &self.on_row_click {
                Some(f) => Some(f(i)),
                None => None,
            };
            rows.push(GridRow { cells, on_press });
            i = i + 1;
        }
        Some(TableGrid { headers, widths, rows })
    }
}

} // verus!
