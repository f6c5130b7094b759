//! The variable resolver: from a column's name to the value that the current
//! row has for it.

use crate::column_index::{column_of, is_last_occurrence, lemma_column_of_sound, ColumnIndex};
use crate::cursor::RowCursor;
use crate::error::{EvalError, Failure};
use vstd::prelude::*;

verus! {

/// A resolved value as contracts speak of it.
pub enum Resolution {
    Absent,
    Text(Seq<char>),
}

/// What a column reference resolves to in one row.
#[derive(Debug, PartialEq, Eq)]
pub enum Resolved {
    /// The row is too short to have a field in that column.
    Absent,
    /// The text of the field, to be read as a number. Text that is no number
    /// stands for not-a-number; reading it never fails.
    Text(String),
}

impl View for Resolved {
    type V = Resolution;

    open spec fn view(&self) -> Resolution {
        match self {
            Resolved::Absent => Resolution::Absent,
            Resolved::Text(text) => Resolution::Text(text@),
        }
    }
}

/// What `name` resolves to in `row` under `header`: `None` where the header
/// has no such column, else the field in that column, or `Absent` where the
/// row ends before it.
pub open spec fn resolution(
    header: Seq<Seq<char>>,
    row: Seq<Seq<char>>,
    name: Seq<char>,
) -> Option<Resolution> {
    match column_of(header, name) {
        None => None,
        Some(column) => Some(
            if column < row.len() {
                Resolution::Text(row[column])
            } else {
                Resolution::Absent
            },
        ),
    }
}

/// The three outcomes of a lookup, by what decides them. A name fails to
/// resolve exactly when the header does not hold it. A name that the header
/// holds resolves to the text of the row's field in the name's column, as it
/// stands in the row, and to `Absent` exactly when the row ends before that
/// column.
pub proof fn lemma_resolution_by_cases(
    header: Seq<Seq<char>>,
    row: Seq<Seq<char>>,
    name: Seq<char>,
)
    ensures
        resolution(header, row, name) is None <==> !header.contains(name),
        forall|column: int|
            is_last_occurrence(header, name, column) && column < row.len() ==> resolution(
                header,
                row,
                name,
            ) == Some(Resolution::Text(row[column])),
        forall|column: int|
            is_last_occurrence(header, name, column) && column >= row.len() ==> resolution(
                header,
                row,
                name,
            ) == Some(Resolution::Absent),
{
    lemma_column_of_sound(header, name);
    if let Some(found) = column_of(header, name) {
        assert(header.contains(name));
        assert forall|column: int| is_last_occurrence(header, name, column) implies column
            == found by {
            if column < found {
                assert(header[found] == name);
            }
        }
    }
}

/// Resolves `name` against the current row. Fails only for a name that the
/// header does not have; a short row gives `Absent`, and any text is handed
/// on as it stands.
pub fn resolve(index: &ColumnIndex, cursor: &RowCursor, name: &str) -> (resolved: Result<
    Resolved,
    EvalError,
>)
    ensures
        match resolved {
            Ok(value) => resolution(index@, cursor@, name@) == Some(value@),
            Err(failure) => resolution(index@, cursor@, name@) is None && failure@
                == Failure::VariableNotFound(name@),
        },
{
    match index.position(name) {
        None => Err(EvalError::VariableNotFound(name.to_owned())),
        Some(column) => match cursor.field(column) {
            Some(text) => Ok(Resolved::Text(text.to_owned())),
            None => Ok(Resolved::Absent),
        },
    }
}

} // verus!
