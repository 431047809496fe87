use sqlmonitor::extract::{extract_single_scalar, ExtractError};
use sqlmonitor::result_set::{Cell, ResultSet, Row};

fn text_cell(s: &str) -> Cell {
    Cell::Text(s.to_string())
}

fn row(cells: Vec<Cell>) -> Row {
    Row { cells }
}

#[test]
fn zero_rows_is_no_rows() {
    let r = extract_single_scalar(ResultSet { rows: vec![] });
    assert!(matches!(r, Err(ExtractError::NoRows)));
}

#[test]
fn two_rows_is_multiple_rows() {
    let rs = ResultSet { rows: vec![row(vec![text_cell("1")]), row(vec![text_cell("2")])] };
    assert!(matches!(extract_single_scalar(rs), Err(ExtractError::MultipleRows)));
}

#[test]
fn row_count_is_checked_before_column_count() {
    let rs = ResultSet { rows: vec![row(vec![]), row(vec![text_cell("1"), text_cell("2")])] };
    assert!(matches!(extract_single_scalar(rs), Err(ExtractError::MultipleRows)));
}

#[test]
fn one_row_without_columns_is_no_columns() {
    let rs = ResultSet { rows: vec![row(vec![])] };
    assert!(matches!(extract_single_scalar(rs), Err(ExtractError::NoColumns)));
}

#[test]
fn one_row_with_two_columns_is_multiple_columns() {
    let rs = ResultSet { rows: vec![row(vec![text_cell("1"), text_cell("2")])] };
    assert!(matches!(extract_single_scalar(rs), Err(ExtractError::MultipleColumns)));
}

#[test]
fn column_count_is_checked_before_null() {
    let rs = ResultSet { rows: vec![row(vec![Cell::Null, Cell::Null])] };
    assert!(matches!(extract_single_scalar(rs), Err(ExtractError::MultipleColumns)));
}

#[test]
fn single_null_is_null_value() {
    let rs = ResultSet { rows: vec![row(vec![Cell::Null])] };
    assert!(matches!(extract_single_scalar(rs), Err(ExtractError::NullValue)));
}

#[test]
fn single_text_cell_is_returned() {
    let rs = ResultSet { rows: vec![row(vec![text_cell("1")])] };
    match extract_single_scalar(rs) {
        Ok(value) => assert_eq!(value, "1"),
        Err(_) => panic!("expected a value"),
    }
}

#[test]
fn empty_text_is_a_value() {
    let rs = ResultSet { rows: vec![row(vec![text_cell("")])] };
    match extract_single_scalar(rs) {
        Ok(value) => assert_eq!(value, ""),
        Err(_) => panic!("expected a value"),
    }
}

#[test]
fn every_present_value_is_returned_as_its_text() {
    for value in ["1", "-7", "12.50", "t", "2024-05-01 12:00:00+00", "{\"a\": 1}", "NULL", " "] {
        let rs = ResultSet { rows: vec![row(vec![text_cell(value)])] };
        assert_eq!(extract_single_scalar(rs), Ok(value.to_string()));
    }
}

#[test]
fn extraction_errors_are_the_five_kinds() {
    let null = ResultSet { rows: vec![row(vec![Cell::Null])] };
    let empty = ResultSet { rows: vec![] };
    let two_rows = ResultSet { rows: vec![row(vec![Cell::Null]), row(vec![])] };
    let no_columns = ResultSet { rows: vec![row(vec![])] };
    let two_columns = ResultSet { rows: vec![row(vec![text_cell("1"), Cell::Null])] };
    assert_eq!(extract_single_scalar(null), Err(ExtractError::NullValue));
    assert_eq!(extract_single_scalar(empty), Err(ExtractError::NoRows));
    assert_eq!(extract_single_scalar(two_rows), Err(ExtractError::MultipleRows));
    assert_eq!(extract_single_scalar(no_columns), Err(ExtractError::NoColumns));
    assert_eq!(extract_single_scalar(two_columns), Err(ExtractError::MultipleColumns));
}
