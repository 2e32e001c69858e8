//! Statements handed to the store, and the values that travel with them.

use vstd::prelude::*;

verus! {

/// A value bound to a statement parameter or read from a result column.
///
/// Floating-point columns are reported as `Real` without their value: no
/// statement of this library reads one.
#[derive(Debug, Clone, PartialEq)]
pub enum SqlValue {
    Null,
    Integer(i64),
    Real,
    Text(String),
    Blob(Vec<u8>),
}

/// One row of a result, one value per selected column.
pub type Row = Vec<SqlValue>;

/// A statement in the store's query language with its positional parameters
/// (`?1` is `params[0]`).
#[derive(Debug, Clone, PartialEq)]
pub struct Statement {
    pub sql: String,
    pub params: Vec<SqlValue>,
}

/// The text held in column `i` of a row, if that column holds text.
pub open spec fn text_column(row: Seq<SqlValue>, i: int) -> Option<Seq<char>> {
    if 0 <= i < row.len() {
        match row[i] {
            SqlValue::Text(s) => Some(s@),
            _ => None,
        }
    } else {
        None
    }
}

/// The integer held in column `i` of a row, if that column holds one.
pub open spec fn integer_column(row: Seq<SqlValue>, i: int) -> Option<i64> {
    if 0 <= i < row.len() {
        match row[i] {
            SqlValue::Integer(n) => Some(n),
            _ => None,
        }
    } else {
        None
    }
}

/// Column `i` read as optional text: `Some(None)` for a null column, `None`
/// where the column is missing or of another type.
pub open spec fn optional_text_column(row: Seq<SqlValue>, i: int) -> Option<Option<Seq<char>>> {
    if 0 <= i < row.len() {
        match row[i] {
            SqlValue::Null => Some(None),
            SqlValue::Text(s) => Some(Some(s@)),
            _ => None,
        }
    } else {
        None
    }
}

/// Reads column `i` as text.
pub fn read_text(row: &Row, i: usize) -> (r: Option<String>)
    ensures
        r matches Some(s) ==> text_column(row@, i as int) == Some(s@),
        r is None ==> text_column(row@, i as int) is None,
{
    if i < row.len() {
        match &row[i] {
            SqlValue::Text(s) => Some(s.clone()),
            _ => None,
        }
    } else {
        None
    }
}

/// Reads column `i` as an integer.
pub fn read_integer(row: &Row, i: usize) -> (r: Option<i64>)
    ensures
        r == integer_column(row@, i as int),
{
    if i < row.len() {
        match &row[i] {
            SqlValue::Integer(n) => Some(*n),
            _ => None,
        }
    } else {
        None
    }
}

/// Reads column `i` as text that may be null.
pub fn read_optional_text(row: &Row, i: usize) -> (r: Option<Option<String>>)
    ensures
        r is None <==> optional_text_column(row@, i as int) is None,
        r matches Some(None) ==> optional_text_column(row@, i as int) == Some(None::<Seq<char>>),
        r matches Some(Some(s)) ==> optional_text_column(row@, i as int) == Some(Some(s@)),
{
    if i < row.len() {
        match &row[i] {
            SqlValue::Null => Some(None),
            SqlValue::Text(s) => Some(Some(s.clone())),
            _ => None,
        }
    } else {
        None
    }
}

/// A statement that takes no parameters.
pub fn plain_statement(sql: &str) -> (r: Statement)
    ensures
        r.sql@ == sql@,
        r.params@.len() == 0,
{
    Statement { sql: sql.to_string(), params: Vec::new() }
}

} // verus!
