//! The column index: from a column's name to its position in a row.

use crate::record::{field_at, field_count, record_fields};
use csv::StringRecord;
use vstd::prelude::*;

verus! {

/// The position that `name` stands for in `header`: that of its last
/// occurrence, or `None` where the header does not hold the name.
///
/// Where a name repeats, the last column of that name wins, as it does when
/// the names are inserted one after another into a map.
pub open spec fn column_of(header: Seq<Seq<char>>, name: Seq<char>) -> Option<int>
    decreases header.len(),
{
    if header.len() == 0 {
        None
    } else if header.last() == name {
        Some(header.len() - 1)
    } else {
        column_of(header.drop_last(), name)
    }
}

/// `column` holds `name` in `header`, and no later column does.
pub open spec fn is_last_occurrence(header: Seq<Seq<char>>, name: Seq<char>, column: int) -> bool {
    &&& 0 <= column < header.len()
    &&& header[column] == name
    &&& forall|later: int| column < later < header.len() ==> header[later] != name
}

/// A name that the header holds is mapped to its last occurrence.
pub proof fn lemma_column_of_found(header: Seq<Seq<char>>, name: Seq<char>, column: int)
    requires
        is_last_occurrence(header, name, column),
    ensures
        column_of(header, name) == Some(column),
    decreases header.len(),
{
    if header.last() != name {
        lemma_column_of_found(header.drop_last(), name, column);
    }
}

/// A name that the header does not hold is mapped to nothing.
pub proof fn lemma_column_of_missing(header: Seq<Seq<char>>, name: Seq<char>)
    requires
        forall|column: int| 0 <= column < header.len() ==> header[column] != name,
    ensures
        column_of(header, name) is None,
    decreases header.len(),
{
    if header.len() > 0 {
        lemma_column_of_missing(header.drop_last(), name);
    }
}

/// What `column_of` answers is the last occurrence of the name, and it
/// answers `None` only for a name that the header does not hold.
pub proof fn lemma_column_of_sound(header: Seq<Seq<char>>, name: Seq<char>)
    ensures
        match column_of(header, name) {
            Some(column) => is_last_occurrence(header, name, column),
            None => !header.contains(name),
        },
    decreases header.len(),
{
    if header.len() > 0 && header.last() != name {
        let front = header.drop_last();
        lemma_column_of_sound(front, name);
        match column_of(front, name) {
            Some(column) => {
                assert(header[column] == front[column]);
                assert forall|later: int| column < later < header.len() implies header[later]
                    != name by {
                    if later < front.len() {
                        assert(front[later] != name);
                    }
                }
            },
            None => {
                if header.contains(name) {
                    let at = choose|at: int| 0 <= at < header.len() && header[at] == name;
                    assert(front[at] == name);
                }
            },
        }
    }
}

/// The names of the header's columns, kept in the header's order.
pub struct ColumnIndex {
    names: Vec<String>,
}

impl View for ColumnIndex {
    type V = Seq<Seq<char>>;

    /// The header that the index was built from.
    closed spec fn view(&self) -> Seq<Seq<char>> {
        Seq::new(self.names@.len(), |at: int| self.names@[at]@)
    }
}

impl ColumnIndex {
    /// Builds the index of a header. Repeated names are no error.
    pub fn build(header: &StringRecord) -> (index: ColumnIndex)
        ensures
            index@ == record_fields(*header),
    {
        let count = field_count(header);
        let mut names: Vec<String> = Vec::new();
        let mut position: usize = 0;
        while position < count
            invariant
                count == record_fields(*header).len(),
                position <= count,
                names@.len() == position,
                forall|at: int| 0 <= at < position ==> names@[at]@ == record_fields(*header)[at],
            decreases count - position,
        {
            if let Some(text) = field_at(header, position) {
                names.push(text.to_owned());
            }
            position += 1;
        }
        let index = ColumnIndex { names };
        assert(index@ =~= record_fields(*header));
        index
    }

    /// The number of columns of the header.
    pub fn width(&self) -> (count: usize)
        ensures
            count == self@.len(),
    {
        self.names.len()
    }

    /// The position of the column called `name`.
    pub fn position(&self, name: &str) -> (found: Option<usize>)
        ensures
            match found {
                Some(column) => column_of(self@, name@) == Some(column as int),
                None => column_of(self@, name@) is None,
            },
    {
        let wanted = name.to_owned();
        let mut position: usize = self.names.len();
        while position > 0
            invariant
                position <= self.names@.len(),
                self@.len() == self.names@.len(),
                wanted@ == name@,
                forall|later: int| position <= later < self@.len() ==> self@[later] != name@,
            decreases position,
        {
            position -= 1;
            if self.names[position] == wanted {
                proof {
                    lemma_column_of_found(self@, name@, position as int);
                }
                return Some(position);
            }
        }
        proof {
            lemma_column_of_missing(self@, name@);
        }
        None
    }
}

} // verus!
