//! Scalar extraction: reducing a result set to its single value.

use vstd::prelude::*;
use crate::messages::{
    multiple_columns, multiple_columns_text, multiple_rows, multiple_rows_text, no_columns,
    no_columns_text, no_rows, no_rows_text, null_value, null_value_text,
};
use crate::result_set::{Cell, CellView, ResultSet};

verus! {

/// Why a result set did not yield a scalar.
#[derive(Clone, Copy, Debug, PartialEq, Eq, Structural)]
pub enum ExtractError {
    /// The result has no row.
    NoRows,
    /// The result has more than one row.
    MultipleRows,
    /// The single row has no column.
    NoColumns,
    /// The single row has more than one column.
    MultipleColumns,
    /// The single cell is `NULL`.
    NullValue,
}

impl ExtractError {
    /// Whether the error is about the number of rows or columns.
    pub open spec fn shape_violation(self) -> bool {
        self is NoRows || self is MultipleRows || self is NoColumns || self is MultipleColumns
    }

    /// The description shown to the operator.
    pub open spec fn text(self) -> Seq<char> {
        match self {
            ExtractError::NoRows => no_rows_text(),
            ExtractError::MultipleRows => multiple_rows_text(),
            ExtractError::NoColumns => no_columns_text(),
            ExtractError::MultipleColumns => multiple_columns_text(),
            ExtractError::NullValue => null_value_text(),
        }
    }

    /// Whether the error is about the number of rows or columns.
    pub fn is_shape_violation(&self) -> (b: bool)
        ensures
            b == self.shape_violation(),
    {
        match self {
            ExtractError::NoRows => true,
            ExtractError::MultipleRows => true,
            ExtractError::NoColumns => true,
            ExtractError::MultipleColumns => true,
            ExtractError::NullValue => false,
        }
    }

    /// The description shown to the operator.
    pub fn message(&self) -> (s: String)
        ensures
            s@ == self.text(),
    {
        match self {
            ExtractError::NoRows => no_rows(),
            ExtractError::MultipleRows => multiple_rows(),
            ExtractError::NoColumns => no_columns(),
            ExtractError::MultipleColumns => multiple_columns(),
            ExtractError::NullValue => null_value(),
        }
    }
}

/// The scalar of a result set, or the first rule it breaks. The rules are
/// tried in this order: some row; no second row; some column; no second
/// column; a value that is not null. A value that is present is returned as
/// its text, whatever it is.
pub open spec fn spec_extract(rows: Seq<Seq<CellView>>) -> Result<Seq<char>, ExtractError> {
    if rows.len() == 0 {
        Err(ExtractError::NoRows)
    } else if rows.len() > 1 {
        Err(ExtractError::MultipleRows)
    } else if rows[0].len() == 0 {
        Err(ExtractError::NoColumns)
    } else if rows[0].len() > 1 {
        Err(ExtractError::MultipleColumns)
    } else {
        match rows[0][0] {
            CellView::Null => Err(ExtractError::NullValue),
            CellView::Text(value) => Ok(value),
        }
    }
}

/// The mathematical view of an extraction's result.
pub open spec fn extracted(r: Result<String, ExtractError>) -> Result<Seq<char>, ExtractError> {
    match r {
        Ok(value) => Ok(value@),
        Err(e) => Err(e),
    }
}

/// Extracts the single value of a result set.
pub fn extract_single_scalar(result_set: ResultSet) -> (r: Result<String, ExtractError>)
    ensures
        extracted(r) == spec_extract(result_set@),
{
    let mut rows = result_set.rows;
    if rows.len() == 0 {
        return Err(ExtractError::NoRows);
    }
    if rows.len() > 1 {
        return Err(ExtractError::MultipleRows);
    }
    let row = rows.pop().unwrap();
    let mut cells = row.cells;
    if cells.len() == 0 {
        return Err(ExtractError::NoColumns);
    }
    if cells.len() > 1 {
        return Err(ExtractError::MultipleColumns);
    }
    let cell = cells.pop().unwrap();
    match cell {
        Cell::Null => Err(ExtractError::NullValue),
        Cell::Text(value) => Ok(value),
    }
}

} // verus!
