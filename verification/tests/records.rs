use sms_modem::args_parser::{SmsMessageArgs, SmsTargetArgs};
use sms_modem::contacts::{
    find_all_or_select_at_index, find_exatcly_one_by_contact_name, phone_numbers, Contact,
};
use sms_modem::groups::{Group, GroupDetails};
use sms_modem::sms_repository::{find_one_by_field, RecordId};
use sms_modem::sms_send::{
    announcement, find_all_group_numbers, get_message_to_send, message_source, recipient_source,
    MessageSource, RecipientSource,
};
use sms_modem::tables::{
    can_render_contacts, can_render_group_details, can_render_groups, can_render_templates,
    is_drawable, render_contact_table, render_group_details_table, render_group_table,
    render_templates_table,
};
use sms_modem::templates::Template;

fn contact(key: &str, phone: &str) -> Contact {
    Contact::new_with_id(
        RecordId::from_str("contact", key),
        "Ann".to_string(),
        "Lee".to_string(),
        phone.to_string(),
        Some("ann".to_string()),
    )
}

#[test]
fn contact_name_defaults_to_first_name_and_surname() {
    let named = contact("a", "1");
    assert_eq!(named.contact_name, "ann");
    let unnamed = Contact::new_with_id(
        RecordId::from_str("contact", "b"),
        "Ann".to_string(),
        "Lee".to_string(),
        "2".to_string(),
        None,
    );
    assert_eq!(unnamed.contact_name, "Ann Lee");
    assert_eq!(unnamed.first_name, "Ann");
    assert_eq!(unnamed.surname_name, "Lee");
    assert_eq!(unnamed.phone, "2");
    assert_eq!(unnamed.id, RecordId { tb: "contact".to_string(), id: "b".to_string() });
}

#[test]
fn exactly_one_contact_is_chosen() {
    let only = find_exatcly_one_by_contact_name(vec![contact("a", "1")], "ann", None);
    assert_eq!(only.map(|c| c.phone), Ok("1".to_string()));
    let second =
        find_exatcly_one_by_contact_name(vec![contact("a", "1"), contact("b", "2")], "ann", Some(1));
    assert_eq!(second.map(|c| c.phone), Ok("2".to_string()));
    let first = find_exatcly_one_by_contact_name(
        vec![contact("a", "1"), contact("b", "2"), contact("c", "3")],
        "ann",
        Some(0),
    );
    assert_eq!(first.map(|c| c.phone), Ok("1".to_string()));
}

#[test]
fn choosing_a_contact_fails_with_a_reason() {
    let none = find_exatcly_one_by_contact_name(vec![], "ann", Some(3));
    assert_eq!(
        none.map(|c| c.phone),
        Err("Could not find contact with name: 'ann'".to_string())
    );
    let several =
        find_exatcly_one_by_contact_name(vec![contact("a", "1"), contact("b", "2")], "ann", None);
    assert_eq!(
        several.map(|c| c.phone),
        Err("Expected to find exactly one contact with name: 'ann', but found 2. Use index to refer correct one".to_string())
    );
    let past =
        find_exatcly_one_by_contact_name(vec![contact("a", "1"), contact("b", "2")], "ann", Some(12));
    assert_eq!(
        past.map(|c| c.phone),
        Err("Could not find contact with name: 'ann' at index 12 out of 2 contacts available".to_string())
    );
}

#[test]
fn all_contacts_or_the_one_at_the_index_are_shown() {
    let all = find_all_or_select_at_index(vec![contact("a", "1"), contact("b", "2")], None);
    assert_eq!(phone_numbers(all), vec!["1".to_string(), "2".to_string()]);
    let one = find_all_or_select_at_index(vec![contact("a", "1"), contact("b", "2")], Some(1));
    assert_eq!(phone_numbers(one), vec!["2".to_string()]);
    let past = find_all_or_select_at_index(vec![contact("a", "1")], Some(1));
    assert!(past.is_empty());
    let none = find_all_or_select_at_index(vec![], Some(0));
    assert!(none.is_empty());
}

#[test]
fn one_record_by_field_or_an_error() {
    assert_eq!(find_one_by_field(Vec::<u8>::new(), "name", "x"), Ok(None));
    assert_eq!(find_one_by_field(vec![4u8], "name", "x"), Ok(Some(4)));
    assert_eq!(
        find_one_by_field(vec![4u8, 5], "name", "x"),
        Err("More than one record with field: 'name' of value 'x' found".to_string())
    );
}

#[test]
fn groups_and_templates_are_keyed_by_name() {
    let group = Group::new("family".to_string());
    assert_eq!(group.name, "family");
    assert_eq!(group.id, RecordId { tb: "group".to_string(), id: "family".to_string() });
    assert_eq!(Group::id_from_name("x"), RecordId::from_str("group", "x"));
    let template = Template::new("greet".to_string(), "Hello".to_string());
    assert_eq!(template.name, "greet");
    assert_eq!(template.text, "Hello");
    assert_eq!(template.id, RecordId { tb: "template".to_string(), id: "greet".to_string() });
    assert_eq!(Template::id_from_name("x"), RecordId::from_str("template", "x"));
}

#[test]
fn recipients_come_from_contact_then_number_then_group() {
    let all = SmsTargetArgs {
        number: Some("1".to_string()),
        contact_name: Some("ann".to_string()),
        group_name: Some("family".to_string()),
    };
    assert!(all.has_target());
    assert_eq!(recipient_source(all), RecipientSource::Contact("ann".to_string()));
    let two = SmsTargetArgs {
        number: Some("1".to_string()),
        contact_name: None,
        group_name: Some("family".to_string()),
    };
    assert!(two.has_target());
    assert_eq!(recipient_source(two), RecipientSource::Number("1".to_string()));
    let number = SmsTargetArgs {
        number: Some("123456789".to_string()),
        contact_name: None,
        group_name: None,
    };
    assert_eq!(recipient_source(number), RecipientSource::Number("123456789".to_string()));
    let group = SmsTargetArgs {
        number: None,
        contact_name: None,
        group_name: Some("family".to_string()),
    };
    assert!(group.has_target());
    assert_eq!(recipient_source(group), RecipientSource::Group("family".to_string()));
    let nothing = SmsTargetArgs { number: None, contact_name: None, group_name: None };
    assert!(!nothing.has_target());
}

#[test]
fn message_comes_from_plain_text_then_template() {
    let both = SmsMessageArgs {
        plain: Some("Hello world".to_string()),
        template: Some("greet".to_string()),
    };
    assert!(both.has_message());
    assert_eq!(message_source(both), MessageSource::Plain("Hello world".to_string()));
    let plain = SmsMessageArgs { plain: Some("Hello world".to_string()), template: None };
    assert_eq!(message_source(plain), MessageSource::Plain("Hello world".to_string()));
    let template = SmsMessageArgs { plain: None, template: Some("greet".to_string()) };
    assert!(template.has_message());
    assert_eq!(message_source(template), MessageSource::Template("greet".to_string()));
    let nothing = SmsMessageArgs { plain: None, template: None };
    assert!(!nothing.has_message());
}

#[test]
fn group_numbers_and_template_text_or_not_found() {
    let details = GroupDetails {
        id: Group::id_from_name("family"),
        name: "family".to_string(),
        contacts: vec![contact("a", "1"), contact("b", "2")],
    };
    assert_eq!(
        find_all_group_numbers("family", Some(details)),
        Ok(vec!["1".to_string(), "2".to_string()])
    );
    assert_eq!(
        find_all_group_numbers("family", None),
        Err("Group family not found".to_string())
    );
    assert_eq!(
        get_message_to_send("greet", Some(Template::new("greet".to_string(), "Hello".to_string()))),
        Ok("Hello".to_string())
    );
    assert_eq!(
        get_message_to_send("greet", None),
        Err("Template greet not found".to_string())
    );
}

#[test]
fn announcement_names_count_and_message() {
    assert_eq!(
        announcement(12, "Hello world"),
        "Sending sms to 12 number of people with message 'Hello world'"
    );
}

fn drawn(rows: Vec<Vec<String>>) -> String {
    let mut table = prettytable::Table::new();
    for row in rows {
        let cells = row.iter().map(|c| prettytable::Cell::new(c)).collect();
        table.add_row(prettytable::Row::new(cells));
    }
    table.to_string()
}

fn line(cells: &[&str]) -> Vec<String> {
    cells.iter().map(|c| c.to_string()).collect()
}

#[test]
fn contacts_are_drawn_with_their_position() {
    let table = render_contact_table(&vec![contact("a", "111"), contact("b", "222")]);
    assert_eq!(
        table,
        drawn(vec![
            line(&["#", "Contact Name", "First Name", "Surname Name", "Phone"]),
            line(&["0", "ann", "Ann", "Lee", "111"]),
            line(&["1", "ann", "Ann", "Lee", "222"]),
        ])
    );
    assert!(table.contains("| 1 | ann          | Ann        | Lee          | 222   |"));
    assert_eq!(
        render_contact_table(&vec![]),
        drawn(vec![line(&["#", "Contact Name", "First Name", "Surname Name", "Phone"])])
    );
}

#[test]
fn groups_and_templates_are_drawn() {
    let details = GroupDetails {
        id: Group::id_from_name("family"),
        name: "family".to_string(),
        contacts: vec![contact("a", "1")],
    };
    assert_eq!(
        render_group_details_table(&details),
        drawn(vec![line(&["Contact Name"]), line(&["ann"])])
    );
    assert_eq!(
        render_group_table(&vec![Group::new("family".to_string()), Group::new("work".to_string())]),
        drawn(vec![line(&["Name"]), line(&["family"]), line(&["work"])])
    );
    let templates = vec![Template::new("greet".to_string(), "Hello there".to_string())];
    let table = render_templates_table(&templates);
    assert_eq!(table, drawn(vec![line(&["name", "Text"]), line(&["greet", "Hello there"])]));
    assert!(table.contains("| greet | Hello there |"));
}

#[test]
fn escape_character_cannot_be_drawn() {
    assert!(is_drawable(""));
    assert!(is_drawable("Ann Lee +48 123"));
    assert!(is_drawable("\u{644}\u{627}\u{644}\u{627}"));
    assert!(!is_drawable("\u{1b}"));
    assert!(!is_drawable("\u{1b}[\u{644}\u{627}\u{644}\u{627}"));
    assert!(!is_drawable("red \u{1b}[31mtext"));

    let plain = vec![contact("a", "1"), contact("b", "2")];
    assert!(can_render_contacts(&plain));
    assert!(can_render_contacts(&vec![]));
    let coloured = vec![contact("a", "1"), contact("b", "\u{1b}[\u{644}\u{627}\u{644}\u{627}")];
    assert!(!can_render_contacts(&coloured));

    let details = GroupDetails {
        id: Group::id_from_name("family"),
        name: "family".to_string(),
        contacts: coloured,
    };
    assert!(can_render_group_details(&details));
    let named = Contact::new_with_id(
        RecordId::from_str("contact", "c"),
        "Ann".to_string(),
        "Lee".to_string(),
        "3".to_string(),
        Some("\u{1b}[1m".to_string()),
    );
    let details = GroupDetails {
        id: Group::id_from_name("family"),
        name: "family".to_string(),
        contacts: vec![named],
    };
    assert!(!can_render_group_details(&details));

    assert!(can_render_groups(&vec![Group::new("family".to_string())]));
    assert!(!can_render_groups(&vec![
        Group::new("family".to_string()),
        Group::new("\u{1b}".to_string())
    ]));
    assert!(can_render_templates(&vec![Template::new("greet".to_string(), "Hi".to_string())]));
    assert!(!can_render_templates(&vec![Template::new(
        "greet".to_string(),
        "Hi \u{1b}[0m".to_string()
    )]));
    assert!(!can_render_templates(&vec![Template::new(
        "\u{1b}".to_string(),
        "Hi".to_string()
    )]));
}

#[test]
fn text_that_narrows_when_joined_is_drawn() {
    let wide = Contact::new_with_id(
        RecordId::from_str("contact", "d"),
        "\u{644}\u{627}".to_string(),
        "[m".to_string(),
        "4".to_string(),
        None,
    );
    let contacts = vec![wide];
    assert!(can_render_contacts(&contacts));
    let table = render_contact_table(&contacts);
    assert_eq!(
        table,
        drawn(vec![
            line(&["#", "Contact Name", "First Name", "Surname Name", "Phone"]),
            line(&["0", "\u{644}\u{627} [m", "\u{644}\u{627}", "[m", "4"]),
        ])
    );
}
