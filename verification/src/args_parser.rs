//! The commands of the program and their arguments, as plain values.

use vstd::prelude::*;

verus! {

/// The arguments of one run of the program.
#[derive(Debug)]
pub struct Cli {
    pub command: Commands,
}

/// What the program is asked to do.
#[derive(Debug)]
pub enum Commands {
    /// Manage contacts.
    Contacts(ContactsCommands),
    /// Manage groups.
    Groups(GroupsCommands),
    /// Manage message templates.
    Templates(TemplatesCommands),
    /// Send a message.
    Send(SendSmsArgs),
}

#[derive(Debug)]
pub enum ContactsCommands {
    /// Add a contact.
    Create { first_name: String, surname_name: String, phone: String, contact_name: Option<String> },
    /// Delete a contact.
    Delete(ContactTargetArgs),
    /// Show a contact.
    Get(ContactTargetArgs),
    /// Change a contact.
    Update(ContactUpdateArgs),
    /// Show all contacts.
    List,
}

/// A contact, by name; where several share the name, by position among
/// them, counted from 0.
#[derive(Debug, Clone)]
pub struct ContactTargetArgs {
    pub contact_name: String,
    pub index: Option<usize>,
}

#[derive(Debug)]
pub struct ContactUpdateArgs {
    pub contact_target: ContactTargetArgs,
    pub first_name: String,
    pub surname_name: String,
    pub phone: String,
    pub new_contact_name: Option<String>,
}

#[derive(Debug)]
pub enum GroupsCommands {
    /// Create a group.
    Create { name: String },
    /// Delete a group.
    Delete { name: String },
    /// Show a group.
    Get { name: String },
    /// Put a contact into a group.
    Assign(AssignGroupArgs),
    /// Take a contact out of a group.
    Unassign(AssignGroupArgs),
    /// Show all groups.
    List,
}

#[derive(Debug)]
pub struct AssignGroupArgs {
    pub group_name: String,
    pub contact_target: ContactTargetArgs,
}

#[derive(Debug)]
pub enum TemplatesCommands {
    /// Create a template.
    Create { name: String, text: String },
    /// Delete a template.
    Delete { name: String },
    /// Show a template.
    Get { name: String },
    /// Change a template.
    Update { name: String, text: String },
    /// Show all templates.
    List,
}

#[derive(Debug)]
pub struct SendSmsArgs {
    pub to: SmsTargetArgs,
    pub message: SmsMessageArgs,
}

/// To whom a message goes: a number, the contacts of a name, or a group.
#[derive(Debug, Clone)]
pub struct SmsTargetArgs {
    pub number: Option<String>,
    pub contact_name: Option<String>,
    pub group_name: Option<String>,
}

impl SmsTargetArgs {
    /// Whether a target is named at all.
    pub open spec fn names_a_target(self) -> bool {
        self.number is Some || self.contact_name is Some || self.group_name is Some
    }

    /// Whether a target is named at all.
    pub fn has_target(&self) -> (named: bool)
        ensures
            named == self.names_a_target(),
    {
        self.number.is_some() || self.contact_name.is_some() || self.group_name.is_some()
    }
}

/// What is sent: a text, or the text of a template.
#[derive(Debug, Clone)]
pub struct SmsMessageArgs {
    pub plain: Option<String>,
    pub template: Option<String>,
}

impl SmsMessageArgs {
    /// Whether a message is named at all.
    pub open spec fn names_a_message(self) -> bool {
        self.plain is Some || self.template is Some
    }

    /// Whether a message is named at all.
    pub fn has_message(&self) -> (named: bool)
        ensures
            named == self.names_a_message(),
    {
        self.plain.is_some() || self.template.is_some()
    }
}

} // verus!
