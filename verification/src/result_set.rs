//! What a database handed back for a statement, as plain values.
//!
//! A driver's rows are turned into these types before any rule looks at
//! them, so the rules are the same for every engine. Every value that is
//! present arrives as its text.

use vstd::prelude::*;

verus! {

/// One value of a fetched row.
#[derive(Debug, PartialEq, Eq)]
pub enum Cell {
    /// SQL `NULL`.
    Null,
    /// A value that is present, in its textual form.
    Text(String),
}

/// The mathematical view of a [`Cell`].
pub enum CellView {
    Null,
    Text(Seq<char>),
}

impl View for Cell {
    type V = CellView;

    open spec fn view(&self) -> CellView {
        match *self {
            Cell::Null => CellView::Null,
            Cell::Text(t) => CellView::Text(t@),
        }
    }
}

/// One fetched row: its cells, in column order.
#[derive(Debug, PartialEq, Eq)]
pub struct Row {
    pub cells: Vec<Cell>,
}

impl View for Row {
    type V = Seq<CellView>;

    open spec fn view(&self) -> Seq<CellView> {
        Seq::new(self.cells@.len(), |i: int| self.cells@[i]@)
    }
}

/// Everything a statement returned: its rows, in the order fetched.
#[derive(Debug, PartialEq, Eq)]
pub struct ResultSet {
    pub rows: Vec<Row>,
}

impl View for ResultSet {
    type V = Seq<Seq<CellView>>;

    open spec fn view(&self) -> Seq<Seq<CellView>> {
        Seq::new(self.rows@.len(), |i: int| self.rows@[i]@)
    }
}

} // verus!
