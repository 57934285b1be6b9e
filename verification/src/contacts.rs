//! Contacts, and the choice of one among those that share a name.

use vstd::prelude::*;
use vstd::string::*;
use crate::sms_repository::RecordId;
use crate::text::{decimal, decimal_text, texts};

verus! {

/// The table of the contacts.
pub const CONTACT_TABLE: &'static str = "contact";

/// A person and a phone number.
#[derive(Debug)]
pub struct Contact {
    pub id: RecordId,
    pub first_name: String,
    pub surname_name: String,
    pub phone: String,
    pub contact_name: String,
}

impl Contact {
    /// A contact with the identity given. Without a contact name it goes
    /// by its first name and surname, with a space between them.
    pub fn new_with_id(
        id: RecordId,
        first_name: String,
        surname_name: String,
        phone: String,
        contact_name: Option<String>,
    ) -> (contact: Contact)
        ensures
            contact.id == id,
            contact.first_name == first_name,
            contact.surname_name == surname_name,
            contact.phone == phone,
            contact.contact_name@ == (match contact_name {
                Some(name) => name@,
                None => first_name@ + " "@ + surname_name@,
            }),
    {
        let contact_name = match contact_name {
            Some(name) => name,
            None => first_name.clone().concat(" ").concat(surname_name.as_str()),
        };
        Contact { id, first_name, surname_name, phone, contact_name }
    }

    /// Changes nothing.
    pub fn update(&mut self)
        ensures
            *final(self) == *old(self),
    {
    }
}

/// The message where no contact has the name.
pub open spec fn none_found_text(contact_name: Seq<char>) -> Seq<char> {
    "Could not find contact with name: '"@ + contact_name + "'"@
}

/// The message where several contacts have the name and none was chosen.
pub open spec fn several_found_text(contact_name: Seq<char>, count: nat) -> Seq<char> {
    "Expected to find exactly one contact with name: '"@ + contact_name + "', but found "@
        + decimal_text(count) + ". Use index to refer correct one"@
}

/// The message where the position chosen is past the last contact.
pub open spec fn no_such_index_text(contact_name: Seq<char>, index: nat, count: nat) -> Seq<char> {
    "Could not find contact with name: '"@ + contact_name + "' at index "@ + decimal_text(index)
        + " out of "@ + decimal_text(count) + " contacts available"@
}

/// Which of the contacts found under a name is meant, or why none is.
pub open spec fn exactly_one<T>(found: Seq<T>, contact_name: Seq<char>, index: Option<usize>) -> Result<
    T,
    Seq<char>,
> {
    let position = match index {
        Some(i) => i as int,
        None => 0,
    };
    if found.len() == 0 {
        Err(none_found_text(contact_name))
    } else if found.len() > 1 && index is None {
        Err(several_found_text(contact_name, found.len()))
    } else if position < found.len() {
        Ok(found[position])
    } else {
        Err(no_such_index_text(contact_name, position as nat, found.len()))
    }
}

/// The characters of the message of a failed choice.
pub open spec fn choice_view<T>(choice: Result<T, String>) -> Result<T, Seq<char>> {
    match choice {
        Ok(chosen) => Ok(chosen),
        Err(message) => Err(message@),
    }
}

/// Chooses the one contact that is meant among those found under
/// `contact_name`: the only one, or the one at `index`. It is an error to
/// find none, to find several without an index, and to give an index past
/// the last.
pub fn find_exatcly_one_by_contact_name(
    contacts: Vec<Contact>,
    contact_name: &str,
    index: Option<usize>,
) -> (chosen: Result<Contact, String>)
    ensures
        choice_view(chosen) == exactly_one(contacts@, contact_name@, index),
{
    let mut contacts = contacts;
    let number_of_contacts = contacts.len();
    if number_of_contacts == 0 {
        return Err(
            String::from_str("Could not find contact with name: '").concat(contact_name).concat("'"),
        );
    }
    if number_of_contacts > 1 && index.is_none() {
        let count = decimal(number_of_contacts as u64);
        return Err(
            String::from_str("Expected to find exactly one contact with name: '").concat(
                contact_name,
            ).concat("', but found ").concat(count.as_str()).concat(
                ". Use index to refer correct one",
            ),
        );
    }
    let index = match index {
        Some(i) => i,
        None => 0,
    };
    if index < number_of_contacts {
        Ok(contacts.swap_remove(index))
    } else {
        let position = decimal(index as u64);
        let count = decimal(number_of_contacts as u64);
        Err(
            String::from_str("Could not find contact with name: '").concat(contact_name).concat(
                "' at index ",
            ).concat(position.as_str()).concat(" out of ").concat(count.as_str()).concat(
                " contacts available",
            ),
        )
    }
}

/// Which of the contacts found under a name are shown: all of them, or
/// the one at the index, or none where the index is past the last.
pub open spec fn all_or_one<T>(found: Seq<T>, index: Option<usize>) -> Seq<T> {
    match index {
        None => found,
        Some(i) => if i < found.len() {
            seq![found[i as int]]
        } else {
            Seq::empty()
        },
    }
}

/// The contacts to show among those found under a name.
pub fn find_all_or_select_at_index(contacts: Vec<Contact>, index: Option<usize>) -> (shown: Vec<
    Contact,
>)
    ensures
        shown@ == all_or_one(contacts@, index),
{
    let mut contacts = contacts;
    match index {
        None => contacts,
        Some(i) => {
            let mut shown: Vec<Contact> = Vec::new();
            if i < contacts.len() {
                let ghost found = contacts@;
                shown.push(contacts.swap_remove(i));
                assert(shown@ =~= all_or_one(found, index));
            }
            shown
        },
    }
}

/// The phone numbers of the contacts, in their order.
pub open spec fn phones(contacts: Seq<Contact>) -> Seq<Seq<char>> {
    Seq::new(contacts.len(), |i: int| contacts[i].phone@)
}

/// The phone numbers of the contacts, in their order.
pub fn phone_numbers(contacts: Vec<Contact>) -> (numbers: Vec<String>)
    ensures
        texts(numbers@) == phones(contacts@),
{
    let mut numbers: Vec<String> = Vec::new();
    let mut i: usize = 0;
    while i < contacts.len()
        invariant
            i <= contacts@.len(),
            numbers@.len() == i,
            forall|j: int| 0 <= j < i ==> (#[trigger] numbers@[j])@ == contacts@[j].phone@,
        decreases contacts@.len() - i,
    {
        numbers.push(contacts[i].phone.clone());
        i += 1;
    }
    assert(texts(numbers@) =~= phones(contacts@));
    numbers
}

} // verus!
