//! Message templates.

use vstd::prelude::*;
use vstd::string::*;
use crate::sms_repository::RecordId;

verus! {

/// The table of the templates.
pub const TEMPLATE_TABLE: &'static str = "template";

/// The table of the templates, as the contracts speak of it.
pub open spec fn template_table() -> Seq<char> {
    "template"@
}

/// A named text.
#[derive(Debug)]
pub struct Template {
    pub id: RecordId,
    pub name: String,
    pub text: String,
}

impl Template {
    /// The identity of the template with this name: the name is the key.
    pub fn id_from_name(name: &str) -> (id: RecordId)
        ensures
            id.is(template_table(), name@),
    {
        RecordId::from_str(TEMPLATE_TABLE, name)
    }

    /// The template with this name and text.
    pub fn new(name: String, text: String) -> (template: Template)
        ensures
            template.name == name,
            template.text == text,
            template.id.is(template_table(), name@),
    {
        Template { id: Template::id_from_name(name.as_str()), name, text }
    }
}

} // verus!
