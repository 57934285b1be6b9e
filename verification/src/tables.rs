//! Contacts, groups and templates laid out as tables of text.

use vstd::prelude::*;
use vstd::string::*;
use crate::contacts::Contact;
use crate::groups::{Group, GroupDetails};
use crate::templates::Template;
use crate::text::{decimal, decimal_text, texts};

verus! {

/// The text that `prettytable` draws for a table with these rows of cells,
/// in its default format.
pub uninterp spec fn table_text(rows: Seq<Seq<Seq<char>>>) -> Seq<char>;

/// The characters of each cell of each row.
pub open spec fn cells(rows: Seq<Vec<String>>) -> Seq<Seq<Seq<char>>> {
    Seq::new(rows.len(), |i: int| texts(rows[i]@))
}

/// Whether a text can stand in a cell: it holds no escape character
/// (U+001B). `prettytable` takes what follows one for a terminal colour
/// code and may stop the program over it.
pub open spec fn drawable(text: Seq<char>) -> bool {
    forall|i: int| 0 <= i < text.len() ==> text[i] != '\u{1b}'
}

/// Whether every cell of every row can stand in a table.
pub open spec fn all_drawable(rows: Seq<Seq<Seq<char>>>) -> bool {
    forall|r: int, c: int|
        0 <= r < rows.len() && 0 <= c < rows[r].len() ==> drawable(#[trigger] rows[r][c])
}

/// Whether a text can stand in a cell.
pub fn is_drawable(text: &str) -> (fits: bool)
    ensures
        fits == drawable(text@),
{
    let count = text.unicode_len();
    let mut i: usize = 0;
    while i < count
        invariant
            count == text@.len(),
            i <= count,
            forall|j: int| 0 <= j < i ==> text@[j] != '\u{1b}',
        decreases count - i,
    {
        if text.get_char(i) == '\u{1b}' {
            return false;
        }
        i += 1;
    }
    true
}

/// Trusted: `prettytable::Table::new`, `Table::add_row` with `Row::new` and
/// `Cell::new` for every row and cell, and the table's `Display`. The
/// contract only gives the drawing a name, `table_text`: it depends on the
/// cells alone, and how it looks is the crate's affair. A cell with an
/// escape character is left out: measuring such a cell, the crate asserts
/// what does not hold of every text.
#[verifier::external_body]
fn draw(rows: &Vec<Vec<String>>) -> (text: String)
    requires
        all_drawable(cells(rows@)),
    ensures
        text@ == table_text(cells(rows@)),
{
    let mut table = prettytable::Table::new();
    for row in rows.iter() {
        table.add_row(prettytable::Row::new(row.iter().map(|c| prettytable::Cell::new(c)).collect()));
    }
    table.to_string()
}

/// The heading of the table of contacts.
pub open spec fn contact_heading() -> Seq<Seq<char>> {
    seq!["#"@, "Contact Name"@, "First Name"@, "Surname Name"@, "Phone"@]
}

/// The row of the contact at `index`: its position and its fields.
pub open spec fn contact_row(index: int, contact: Contact) -> Seq<Seq<char>> {
    seq![
        decimal_text(index as nat),
        contact.contact_name@,
        contact.first_name@,
        contact.surname_name@,
        contact.phone@,
    ]
}

/// The rows of the table of contacts: the heading, then one row for each
/// contact, in their order, numbered from 0.
pub open spec fn contact_rows(contacts: Seq<Contact>) -> Seq<Seq<Seq<char>>> {
    Seq::new(
        contacts.len() + 1,
        |i: int|
            if i == 0 {
                contact_heading()
            } else {
                contact_row(i - 1, contacts[i - 1])
            },
    )
}

/// The rows of a table with one column: the heading, then the names.
pub open spec fn name_rows(heading: Seq<char>, names: Seq<Seq<char>>) -> Seq<Seq<Seq<char>>> {
    Seq::new(
        names.len() + 1,
        |i: int|
            if i == 0 {
                seq![heading]
            } else {
                seq![names[i - 1]]
            },
    )
}

/// The rows of the table of templates: the heading, then name and text of
/// each template, in their order.
pub open spec fn template_rows(templates: Seq<Template>) -> Seq<Seq<Seq<char>>> {
    Seq::new(
        templates.len() + 1,
        |i: int|
            if i == 0 {
                seq!["name"@, "Text"@]
            } else {
                seq![templates[i - 1].name@, templates[i - 1].text@]
            },
    )
}

/// The contact names of the contacts, in their order.
pub open spec fn contact_names(contacts: Seq<Contact>) -> Seq<Seq<char>> {
    Seq::new(contacts.len(), |i: int| contacts[i].contact_name@)
}

/// The names of the groups, in their order.
pub open spec fn group_names(groups: Seq<Group>) -> Seq<Seq<char>> {
    Seq::new(groups.len(), |i: int| groups[i].name@)
}

/// Whether every field of the contact that a table shows can stand in a
/// cell.
pub open spec fn drawable_contact(contact: Contact) -> bool {
    &&& drawable(contact.contact_name@)
    &&& drawable(contact.first_name@)
    &&& drawable(contact.surname_name@)
    &&& drawable(contact.phone@)
}

/// Whether the table of these contacts can be drawn.
pub open spec fn drawable_contacts(contacts: Seq<Contact>) -> bool {
    forall|i: int| 0 <= i < contacts.len() ==> drawable_contact(#[trigger] contacts[i])
}

/// Whether every text of the list can stand in a cell.
pub open spec fn drawable_names(names: Seq<Seq<char>>) -> bool {
    forall|i: int| 0 <= i < names.len() ==> drawable(#[trigger] names[i])
}

/// Whether the table of these templates can be drawn.
pub open spec fn drawable_templates(templates: Seq<Template>) -> bool {
    forall|i: int|
        0 <= i < templates.len() ==> drawable((#[trigger] templates[i]).name@) && drawable(
            templates[i].text@,
        )
}

/// A number in decimal can stand in a cell.
proof fn lemma_decimal_is_drawable(n: nat)
    ensures
        drawable(decimal_text(n)),
    decreases n,
{
    if n >= 10 {
        lemma_decimal_is_drawable(n / 10);
    }
}

/// Whether the table of these contacts can be drawn.
pub fn can_render_contacts(contacts: &Vec<Contact>) -> (fits: bool)
    ensures
        fits == drawable_contacts(contacts@),
{
    let mut i: usize = 0;
    while i < contacts.len()
        invariant
            i <= contacts@.len(),
            forall|j: int| 0 <= j < i ==> drawable_contact(#[trigger] contacts@[j]),
        decreases contacts@.len() - i,
    {
        let contact = &contacts[i];
        if !(is_drawable(contact.contact_name.as_str()) && is_drawable(
            contact.first_name.as_str(),
        ) && is_drawable(contact.surname_name.as_str()) && is_drawable(contact.phone.as_str())) {
            assert(!drawable_contact(contacts@[i as int]));
            return false;
        }
        i += 1;
    }
    true
}

/// Whether the table of the group's contacts can be drawn.
pub fn can_render_group_details(group_detail: &GroupDetails) -> (fits: bool)
    ensures
        fits == drawable_names(contact_names(group_detail.contacts@)),
{
    let mut i: usize = 0;
    while i < group_detail.contacts.len()
        invariant
            i <= group_detail.contacts@.len(),
            forall|j: int| 0 <= j < i ==> drawable(#[trigger] contact_names(group_detail.contacts@)[j]),
        decreases group_detail.contacts@.len() - i,
    {
        if !is_drawable(group_detail.contacts[i].contact_name.as_str()) {
            assert(!drawable(contact_names(group_detail.contacts@)[i as int]));
            return false;
        }
        i += 1;
    }
    true
}

/// Whether the table of these groups can be drawn.
pub fn can_render_groups(groups: &Vec<Group>) -> (fits: bool)
    ensures
        fits == drawable_names(group_names(groups@)),
{
    let mut i: usize = 0;
    while i < groups.len()
        invariant
            i <= groups@.len(),
            forall|j: int| 0 <= j < i ==> drawable(#[trigger] group_names(groups@)[j]),
        decreases groups@.len() - i,
    {
        if !is_drawable(groups[i].name.as_str()) {
            assert(!drawable(group_names(groups@)[i as int]));
            return false;
        }
        i += 1;
    }
    true
}

/// Whether the table of these templates can be drawn.
pub fn can_render_templates(templates: &Vec<Template>) -> (fits: bool)
    ensures
        fits == drawable_templates(templates@),
{
    let mut i: usize = 0;
    while i < templates.len()
        invariant
            i <= templates@.len(),
            forall|j: int|
                0 <= j < i ==> drawable((#[trigger] templates@[j]).name@) && drawable(
                    templates@[j].text@,
                ),
        decreases templates@.len() - i,
    {
        if !(is_drawable(templates[i].name.as_str()) && is_drawable(templates[i].text.as_str())) {
            assert(!(drawable(templates@[i as int].name@) && drawable(templates@[i as int].text@)));
            return false;
        }
        i += 1;
    }
    true
}

/// The table of the contacts, numbered from 0. A field with an escape
/// character cannot be drawn: `can_render_contacts` tells.
pub fn render_contact_table(contacts: &Vec<Contact>) -> (table: String)
    requires
        drawable_contacts(contacts@),
    ensures
        table@ == table_text(contact_rows(contacts@)),
{
    let mut heading: Vec<String> = Vec::new();
    heading.push(String::from_str("#"));
    heading.push(String::from_str("Contact Name"));
    heading.push(String::from_str("First Name"));
    heading.push(String::from_str("Surname Name"));
    heading.push(String::from_str("Phone"));
    assert(texts(heading@) =~= contact_heading());
    proof {
        reveal_strlit("#");
        reveal_strlit("Contact Name");
        reveal_strlit("First Name");
        reveal_strlit("Surname Name");
        reveal_strlit("Phone");
        assert(drawable("#"@) && drawable("Contact Name"@) && drawable("First Name"@) && drawable(
            "Surname Name"@,
        ) && drawable("Phone"@));
    }
    let mut rows: Vec<Vec<String>> = Vec::new();
    rows.push(heading);
    let mut i: usize = 0;
    while i < contacts.len()
        invariant
            i <= contacts@.len(),
            rows@.len() == i + 1,
            texts(rows@[0]@) == contact_heading(),
            forall|j: int| 0 <= j < i ==> texts((#[trigger] rows@[j + 1])@) == contact_row(j, contacts@[j]),
        decreases contacts@.len() - i,
    {
        let contact = &contacts[i];
        let mut row: Vec<String> = Vec::new();
        row.push(decimal(i as u64));
        row.push(contact.contact_name.clone());
        row.push(contact.first_name.clone());
        row.push(contact.surname_name.clone());
        row.push(contact.phone.clone());
        assert(texts(row@) =~= contact_row(i as int, contacts@[i as int]));
        let ghost before = rows@;
        rows.push(row);
        assert(forall|j: int| 0 <= j <= i ==> rows@[j] == before[j]);
        i += 1;
    }
    assert(cells(rows@) =~= contact_rows(contacts@)) by {
        assert forall|k: int| 0 <= k < rows@.len() implies cells(rows@)[k] == contact_rows(
            contacts@,
        )[k] by {
            if k > 0 {
                assert(texts(rows@[(k - 1) + 1]@) == contact_row(k - 1, contacts@[k - 1]));
            }
        }
    }
    assert(all_drawable(contact_rows(contacts@))) by {
        assert forall|r: int, c: int|
            0 <= r < contact_rows(contacts@).len() && 0 <= c < contact_rows(
                contacts@,
            )[r].len() implies drawable(#[trigger] contact_rows(contacts@)[r][c]) by {
            if r > 0 {
                lemma_decimal_is_drawable((r - 1) as nat);
                assert(drawable_contact(contacts@[r - 1]));
            }
        }
    }
    draw(&rows)
}

fn render_names(heading: &str, names: Vec<String>) -> (table: String)
    requires
        drawable(heading@),
        drawable_names(texts(names@)),
    ensures
        table@ == table_text(name_rows(heading@, texts(names@))),
{
    let mut first: Vec<String> = Vec::new();
    first.push(String::from_str(heading));
    assert(texts(first@) =~= seq![heading@]);
    let mut rows: Vec<Vec<String>> = Vec::new();
    rows.push(first);
    let mut i: usize = 0;
    while i < names.len()
        invariant
            i <= names@.len(),
            rows@.len() == i + 1,
            texts(rows@[0]@) == seq![heading@],
            forall|j: int| 0 <= j < i ==> texts((#[trigger] rows@[j + 1])@) == seq![names@[j]@],
        decreases names@.len() - i,
    {
        let mut row: Vec<String> = Vec::new();
        row.push(names[i].clone());
        assert(texts(row@) =~= seq![names@[i as int]@]);
        let ghost before = rows@;
        rows.push(row);
        assert(forall|j: int| 0 <= j <= i ==> rows@[j] == before[j]);
        i += 1;
    }
    assert(cells(rows@) =~= name_rows(heading@, texts(names@))) by {
        assert forall|k: int| 0 <= k < rows@.len() implies cells(rows@)[k] == name_rows(
            heading@,
            texts(names@),
        )[k] by {
            if k > 0 {
                assert(texts(rows@[(k - 1) + 1]@) == seq![names@[k - 1]@]);
            }
        }
    }
    assert(all_drawable(name_rows(heading@, texts(names@)))) by {
        assert forall|r: int, c: int|
            0 <= r < name_rows(heading@, texts(names@)).len() && 0 <= c < name_rows(
                heading@,
                texts(names@),
            )[r].len() implies drawable(#[trigger] name_rows(heading@, texts(names@))[r][c]) by {
            if r > 0 {
                assert(drawable(texts(names@)[r - 1]));
            }
        }
    }
    draw(&rows)
}

/// The table of a group's contacts, by contact name. A name with an
/// escape character cannot be drawn: `can_render_group_details` tells.
pub fn render_group_details_table(group_detail: &GroupDetails) -> (table: String)
    requires
        drawable_names(contact_names(group_detail.contacts@)),
    ensures
        table@ == table_text(name_rows("Contact Name"@, contact_names(group_detail.contacts@))),
{
    let mut names: Vec<String> = Vec::new();
    let mut i: usize = 0;
    while i < group_detail.contacts.len()
        invariant
            i <= group_detail.contacts@.len(),
            names@.len() == i,
            forall|j: int| 0 <= j < i ==> (#[trigger] names@[j])@ == group_detail.contacts@[j].contact_name@,
        decreases group_detail.contacts@.len() - i,
    {
        names.push(group_detail.contacts[i].contact_name.clone());
        i += 1;
    }
    assert(texts(names@) =~= contact_names(group_detail.contacts@));
    proof {
        reveal_strlit("Contact Name");
        assert(drawable("Contact Name"@));
    }
    render_names("Contact Name", names)
}

/// The table of the groups, by name. A name with an escape character
/// cannot be drawn: `can_render_groups` tells.
pub fn render_group_table(groups: &Vec<Group>) -> (table: String)
    requires
        drawable_names(group_names(groups@)),
    ensures
        table@ == table_text(name_rows("Name"@, group_names(groups@))),
{
    let mut names: Vec<String> = Vec::new();
    let mut i: usize = 0;
    while i < groups.len()
        invariant
            i <= groups@.len(),
            names@.len() == i,
            forall|j: int| 0 <= j < i ==> (#[trigger] names@[j])@ == groups@[j].name@,
        decreases groups@.len() - i,
    {
        names.push(groups[i].name.clone());
        i += 1;
    }
    assert(texts(names@) =~= group_names(groups@));
    proof {
        reveal_strlit("Name");
        assert(drawable("Name"@));
    }
    render_names("Name", names)
}

/// The table of the templates, with name and text. A name or text with
/// an escape character cannot be drawn: `can_render_templates` tells.
pub fn render_templates_table(templates: &Vec<Template>) -> (table: String)
    requires
        drawable_templates(templates@),
    ensures
        table@ == table_text(template_rows(templates@)),
{
    let mut heading: Vec<String> = Vec::new();
    heading.push(String::from_str("name"));
    heading.push(String::from_str("Text"));
    assert(texts(heading@) =~= seq!["name"@, "Text"@]);
    let mut rows: Vec<Vec<String>> = Vec::new();
    rows.push(heading);
    let mut i: usize = 0;
    while i < templates.len()
        invariant
            i <= templates@.len(),
            rows@.len() == i + 1,
            texts(rows@[0]@) == seq!["name"@, "Text"@],
            forall|j: int| 0 <= j < i ==> texts((#[trigger] rows@[j + 1])@) == seq![
                templates@[j].name@,
                templates@[j].text@,
            ],
        decreases templates@.len() - i,
    {
        let mut row: Vec<String> = Vec::new();
        row.push(templates[i].name.clone());
        row.push(templates[i].text.clone());
        assert(texts(row@) =~= seq![templates@[i as int].name@, templates@[i as int].text@]);
        let ghost before = rows@;
        rows.push(row);
        assert(forall|j: int| 0 <= j <= i ==> rows@[j] == before[j]);
        i += 1;
    }
    assert(cells(rows@) =~= template_rows(templates@)) by {
        assert forall|k: int| 0 <= k < rows@.len() implies cells(rows@)[k] == template_rows(
            templates@,
        )[k] by {
            if k > 0 {
                assert(texts(rows@[(k - 1) + 1]@) == seq![
                    templates@[k - 1].name@,
                    templates@[k - 1].text@,
                ]);
            }
        }
    }
    assert(all_drawable(template_rows(templates@))) by {
        reveal_strlit("name");
        reveal_strlit("Text");
        assert(drawable("name"@) && drawable("Text"@));
        assert forall|r: int, c: int|
            0 <= r < template_rows(templates@).len() && 0 <= c < template_rows(
                templates@,
            )[r].len() implies drawable(#[trigger] template_rows(templates@)[r][c]) by {
            if r > 0 {
                assert(drawable(templates@[r - 1].name@) && drawable(templates@[r - 1].text@));
            }
        }
    }
    draw(&rows)
}

} // verus!
