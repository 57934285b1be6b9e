//! The decisions of the send command: where recipients and message come
//! from, what is announced, and what is reported at the end.

use vstd::prelude::*;
use vstd::string::*;
use crate::args_parser::{SmsMessageArgs, SmsTargetArgs};
use crate::contacts::{phone_numbers, phones};
use crate::error::SmsError;
use crate::groups::GroupDetails;
use crate::templates::Template;
use crate::text::{decimal, decimal_text, texts};

verus! {

/// Where the recipients' numbers come from.
#[derive(Debug, PartialEq, Eq)]
pub enum RecipientSource {
    /// All contacts with this contact name.
    Contact(String),
    /// This number.
    Number(String),
    /// All contacts of the group with this name.
    Group(String),
}

/// Where the message comes from.
#[derive(Debug, PartialEq, Eq)]
pub enum MessageSource {
    /// This text.
    Plain(String),
    /// The text of the template with this name.
    Template(String),
}

/// Where the recipients' numbers come from: a contact name counts before a
/// number, and a number before a group. One of the three has to be named:
/// `SmsTargetArgs::has_target` tells.
pub fn recipient_source(target_args: SmsTargetArgs) -> (source: RecipientSource)
    requires
        target_args.names_a_target(),
    ensures
        source == (match (target_args.contact_name, target_args.number, target_args.group_name) {
            (Some(name), _, _) => RecipientSource::Contact(name),
            (None, Some(number), _) => RecipientSource::Number(number),
            (None, None, group) => RecipientSource::Group(group->Some_0),
        }),
{
    match target_args.contact_name {
        Some(name) => RecipientSource::Contact(name),
        None => match target_args.number {
            Some(number) => RecipientSource::Number(number),
            None => RecipientSource::Group(target_args.group_name.unwrap()),
        },
    }
}

/// Where the message comes from: a plain text counts before a template.
/// One of the two has to be named: `SmsMessageArgs::has_message` tells.
pub fn message_source(args: SmsMessageArgs) -> (source: MessageSource)
    requires
        args.names_a_message(),
    ensures
        source == (match (args.plain, args.template) {
            (Some(plain), _) => MessageSource::Plain(plain),
            (None, template) => MessageSource::Template(template->Some_0),
        }),
{
    match args.plain {
        Some(plain) => MessageSource::Plain(plain),
        None => MessageSource::Template(args.template.unwrap()),
    }
}

/// The message for a group that does not exist.
pub open spec fn no_group_text(group_name: Seq<char>) -> Seq<char> {
    "Group "@ + group_name + " not found"@
}

/// The message for a template that does not exist.
pub open spec fn no_template_text(name: Seq<char>) -> Seq<char> {
    "Template "@ + name + " not found"@
}

/// The numbers of the group's contacts, in their order, or an error where
/// the store knows no such group.
pub fn find_all_group_numbers(group_name: &str, details: Option<GroupDetails>) -> (numbers: Result<
    Vec<String>,
    String,
>)
    ensures
        match details {
            Some(group) => numbers matches Ok(list) && texts(list@) == phones(group.contacts@),
            None => numbers matches Err(m) && m@ == no_group_text(group_name@),
        },
{
    match details {
        Some(group) => Ok(phone_numbers(group.contacts)),
        None => Err(String::from_str("Group ").concat(group_name).concat(" not found")),
    }
}

/// The text of the template, or an error where the store knows no such
/// template.
pub fn get_message_to_send(name: &str, template: Option<Template>) -> (message: Result<
    String,
    String,
>)
    ensures
        match template {
            Some(t) => message == Ok::<String, String>(t.text),
            None => message matches Err(m) && m@ == no_template_text(name@),
        },
{
    match template {
        Some(t) => Ok(t.text),
        None => Err(String::from_str("Template ").concat(name).concat(" not found")),
    }
}

/// What is said before a send.
pub open spec fn announcement_text(count: nat, message: Seq<char>) -> Seq<char> {
    "Sending sms to "@ + decimal_text(count) + " number of people with message '"@ + message
        + "'"@
}

/// What is said before a message goes to `count` recipients.
pub fn announcement(count: usize, message: &str) -> (text: String)
    ensures
        text@ == announcement_text(count as nat, message@),
{
    let shown = decimal(count as u64);
    String::from_str("Sending sms to ").concat(shown.as_str()).concat(
        " number of people with message '",
    ).concat(message).concat("'")
}

/// What is reported for a failed send.
pub open spec fn failure_text(error: crate::error::SmsErrorView) -> Seq<char> {
    "Could not send message, Reason: "@ + error.debug_text()
}

/// What is reported at the end of a send: that the message was sent, or
/// why it was not.
pub fn send_sms(outcome: Result<(), SmsError>) -> (report: Result<String, String>)
    ensures
        match outcome {
            Ok(_) => report matches Ok(m) && m@ == "Message sent"@,
            Err(error) => report matches Err(m) && m@ == failure_text(error@),
        },
{
    match outcome {
        Ok(_) => Ok(String::from_str("Message sent")),
        Err(error) => {
            let shown = error.debug_text();
            Err(String::from_str("Could not send message, Reason: ").concat(shown.as_str()))
        },
    }
}

} // verus!
