//! The row cursor: the one row that lookups read.

use crate::record::{empty_record, field_at, field_count, record_fields};
use csv::StringRecord;
use vstd::prelude::*;

verus! {

/// Holds the current row. Exactly one row is live at a time: writing a row
/// replaces the one before it.
pub struct RowCursor {
    current: StringRecord,
}

impl View for RowCursor {
    type V = Seq<Seq<char>>;

    /// The fields of the current row.
    closed spec fn view(&self) -> Seq<Seq<char>> {
        record_fields(self.current)
    }
}

impl RowCursor {
    /// A cursor that holds a row without fields.
    pub fn new() -> (cursor: RowCursor)
        ensures
            cursor@ == Seq::<Seq<char>>::empty(),
    {
        RowCursor { current: empty_record() }
    }

    /// Makes `row` the current row and hands back the row that it replaces.
    pub fn replace(&mut self, row: StringRecord) -> (previous: StringRecord)
        ensures
            final(self)@ == record_fields(row),
            record_fields(previous) == old(self)@,
    {
        let mut incoming = row;
        std::mem::swap(&mut self.current, &mut incoming);
        incoming
    }

    /// The number of fields of the current row.
    pub fn width(&self) -> (count: usize)
        ensures
            count == self@.len(),
    {
        field_count(&self.current)
    }

    /// The text of the current row's field at `column`, or `None` where the
    /// row is too short to have one.
    pub fn field(&self, column: usize) -> (text: Option<&str>)
        ensures
            match text {
                Some(field) => column < self@.len() && field@ == self@[column as int],
                None => column >= self@.len(),
            },
    {
        field_at(&self.current, column)
    }
}

} // verus!
