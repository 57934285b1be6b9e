//! Groups of contacts.

use vstd::prelude::*;
use vstd::string::*;
use crate::contacts::Contact;
use crate::sms_repository::RecordId;

verus! {

/// The table of the groups.
pub const GROUP_TABLE: &'static str = "group";

/// The table of the groups, as the contracts speak of it.
pub open spec fn group_table() -> Seq<char> {
    "group"@
}

/// A named group.
#[derive(Debug)]
pub struct Group {
    pub id: RecordId,
    pub name: String,
}

/// A group with the contacts that belong to it.
#[derive(Debug)]
pub struct GroupDetails {
    pub id: RecordId,
    pub name: String,
    pub contacts: Vec<Contact>,
}

impl Group {
    /// The identity of the group with this name: the name is the key.
    pub fn id_from_name(name: &str) -> (id: RecordId)
        ensures
            id.is(group_table(), name@),
    {
        RecordId::from_str(GROUP_TABLE, name)
    }

    /// The group with this name.
    pub fn new(name: String) -> (group: Group)
        ensures
            group.name == name,
            group.id.is(group_table(), name@),
    {
        Group { id: Group::id_from_name(name.as_str()), name }
    }
}

} // verus!
