//! The boundary to `csv::StringRecord`, the record type that rows arrive in.
//!
//! Verus does not look inside a record. What the rest of the crate knows of
//! one is stated here and taken on trust from the `csv` crate.

use csv::StringRecord;
use vstd::prelude::*;

verus! {

#[verifier::external_type_specification]
#[verifier::external_body]
pub struct ExStringRecord(csv::StringRecord);

/// The fields that a record holds, in order, each as its text.
pub uninterp spec fn record_fields(record: StringRecord) -> Seq<Seq<char>>;

/// Trusted: `csv::StringRecord::new` gives a record without any field.
#[verifier::external_body]
pub(crate) fn empty_record() -> (record: StringRecord)
    ensures
        record_fields(record) == Seq::<Seq<char>>::empty(),
{
    StringRecord::new()
}

/// Trusted: `csv::StringRecord::len` gives the number of fields of the record.
#[verifier::external_body]
pub(crate) fn field_count(record: &StringRecord) -> (count: usize)
    ensures
        count == record_fields(*record).len(),
{
    record.len()
}

/// Trusted: `csv::StringRecord::get` gives the text of the field at
/// `position`, and `None` exactly when the record has no field there.
#[verifier::external_body]
pub(crate) fn field_at<'a>(record: &'a StringRecord, position: usize) -> (field: Option<&'a str>)
    ensures
        match field {
            Some(text) => position < record_fields(*record).len()
                && text@ == record_fields(*record)[position as int],
            None => position >= record_fields(*record).len(),
        },
{
    record.get(position)
}

} // verus!
