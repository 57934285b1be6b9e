//! Records of the store and what is decided about the result of a query.

use vstd::prelude::*;
use vstd::string::*;

verus! {

/// The identity of a record: its table and its key in the table.
#[derive(Debug, Clone, PartialEq, Eq)]
pub struct RecordId {
    pub tb: String,
    pub id: String,
}

impl RecordId {
    /// Whether this is the record with `key` in `table`.
    pub open spec fn is(self, table: Seq<char>, key: Seq<char>) -> bool {
        self.tb@ == table && self.id@ == key
    }

    /// The identity of the record with `key` in `table`.
    pub fn from_str(table: &str, key: &str) -> (id: RecordId)
        ensures
            id.is(table@, key@),
    {
        RecordId { tb: String::from_str(table), id: String::from_str(key) }
    }
}

/// The message for a query by field that found more than one record.
pub open spec fn ambiguous_text(field_name: Seq<char>, field_value: Seq<char>) -> Seq<char> {
    "More than one record with field: '"@ + field_name + "' of value '"@ + field_value
        + "' found"@
}

/// The one record that a query by field found, if it found any; an error
/// if it found more than one.
pub fn find_one_by_field<T>(records: Vec<T>, field_name: &str, field_value: &str) -> (found: Result<
    Option<T>,
    String,
>)
    ensures
        records@.len() == 0 ==> found == Ok::<Option<T>, String>(None),
        records@.len() == 1 ==> found == Ok::<Option<T>, String>(Some(records@[0])),
        records@.len() > 1 ==> (found matches Err(m) && m@ == ambiguous_text(
            field_name@,
            field_value@,
        )),
{
    let mut records = records;
    if records.len() > 1 {
        Err(
            String::from_str("More than one record with field: '").concat(field_name).concat(
                "' of value '",
            ).concat(field_value).concat("' found"),
        )
    } else {
        Ok(records.pop())
    }
}

} // verus!
