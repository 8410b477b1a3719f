//! Character sheet templates: what the API answers for one, and the custom
//! sections and fields that are added to it. A template's sections and
//! fields are the world model's; here they are a type parameter, and what
//! the logic reads of them (their IDs and orders) is given as plain values.

use crate::api::{conflict, not_found, ApiError};
use crate::content::{max_order, next_section_order};
use crate::ids::{random_uuid, uuid_text, uuid_to_string};
use crate::kinds::{variant_debug_name, RuleSystemVariant};
use crate::text::{concat_str, position_of, to_owned_string};
use vstd::prelude::*;

verus! {

/// The answer for a sheet template, with its sections.
#[derive(Clone, Debug)]
pub struct SheetTemplateResponse<S> {
    pub id: String,
    pub world_id: String,
    pub name: String,
    pub description: String,
    /// The name of the preset the template was made for.
    pub variant: String,
    pub sections: Vec<S>,
    pub is_default: bool,
}

impl<S> SheetTemplateResponse<S> {
    /// The answer for a template of the world `world_id`, made for the
    /// preset `variant`.
    pub fn from_template(
        id: String,
        world_id: u128,
        name: String,
        description: String,
        variant: RuleSystemVariant,
        sections: Vec<S>,
        is_default: bool,
    ) -> (r: SheetTemplateResponse<S>)
        ensures
            r.id == id,
            r.world_id@ == uuid_text(world_id),
            r.name == name,
            r.description == description,
            r.variant@ == variant_debug_name(variant),
            r.sections == sections,
            r.is_default == is_default,
    {
        SheetTemplateResponse {
            id,
            world_id: uuid_to_string(world_id),
            name,
            description,
            variant: variant.debug_name(),
            sections,
            is_default,
        }
    }
}

/// Body of a request adding a custom section to a template.
#[derive(Clone, Debug)]
pub struct CreateSectionRequest<L> {
    pub name: String,
    pub description: Option<String>,
    pub layout: Option<L>,
    pub collapsible: bool,
    pub collapsed_by_default: bool,
}

/// Body of a request adding a custom field to a section.
#[derive(Clone, Debug)]
pub struct CreateFieldRequest<T> {
    pub name: String,
    pub description: Option<String>,
    pub field_type: T,
    pub required: bool,
    pub read_only: bool,
}

/// A custom section to add: what the request gives, with a fresh ID and
/// the order that puts it after the template's sections. A description or
/// layout that is `None` leaves the section's own default.
#[derive(Clone, Debug)]
pub struct NewSection<L> {
    pub id: String,
    pub name: String,
    pub description: Option<String>,
    pub layout: Option<L>,
    pub collapsible: bool,
    pub collapsed: bool,
    pub order: u32,
}

/// A custom field to add, likewise.
#[derive(Clone, Debug)]
pub struct NewField<T> {
    pub id: String,
    pub name: String,
    pub description: Option<String>,
    pub field_type: T,
    pub required: bool,
    pub read_only: bool,
    pub order: u32,
}

/// The ID of a custom section or field: "custom_" and a UUID.
pub open spec fn custom_id(value: u128) -> Seq<char> {
    "custom_"@ + uuid_text(value)
}

/// A fresh ID for a custom section or field, from a random UUID.
fn fresh_custom_id() -> (r: String)
    ensures
        exists|u: u128| r@ == #[trigger] custom_id(u),
{
    let u = random_uuid();
    let text = uuid_to_string(u);
    let r = concat_str("custom_", text.as_str());
    assert(r@ == custom_id(u));
    r
}

/// The section that a request adds to a template whose sections have the
/// orders `section_orders`: it comes after all of them.
pub fn new_section<L>(req: CreateSectionRequest<L>, section_orders: &Vec<u32>) -> (r: NewSection<
    L,
>)
    requires
        max_order(section_orders@) < u32::MAX,
    ensures
        exists|u: u128| r.id@ == #[trigger] custom_id(u),
        r.name == req.name,
        r.description == req.description,
        r.layout == req.layout,
        r.collapsible == req.collapsible,
        r.collapsed == req.collapsed_by_default,
        r.order == max_order(section_orders@) + 1,
{
    let id = fresh_custom_id();
    let order = next_section_order(section_orders);
    NewSection {
        id,
        name: req.name,
        description: req.description,
        layout: req.layout,
        collapsible: req.collapsible,
        collapsed: req.collapsed_by_default,
        order,
    }
}

/// The field that a request adds to a section whose fields have the
/// orders `field_orders`: it comes after all of them.
pub fn new_field<T>(req: CreateFieldRequest<T>, field_orders: &Vec<u32>) -> (r: NewField<T>)
    requires
        max_order(field_orders@) < u32::MAX,
    ensures
        exists|u: u128| r.id@ == #[trigger] custom_id(u),
        r.name == req.name,
        r.description == req.description,
        r.field_type == req.field_type,
        r.required == req.required,
        r.read_only == req.read_only,
        r.order == max_order(field_orders@) + 1,
{
    let id = fresh_custom_id();
    let order = next_section_order(field_orders);
    NewField {
        id,
        name: req.name,
        description: req.description,
        field_type: req.field_type,
        required: req.required,
        read_only: req.read_only,
        order,
    }
}

/// Finds the section a field is added to among a template's sections (by
/// their IDs, in order): the first with the ID, else "Not Found" ("Section
/// not found").
pub fn find_section(section_ids: &Vec<String>, section_id: &str) -> (r: Result<usize, ApiError>)
    ensures
        match r {
            Ok(i) => i < section_ids@.len() && section_ids@[i as int]@ == section_id@ && forall|
                j: int,
            |
                0 <= j < i ==> section_ids@[j]@ != section_id@,
            Err(e) => e.status == not_found() && e.message@ == "Section not found"@ && forall|
                j: int,
            |
                0 <= j < section_ids@.len() ==> section_ids@[j]@ != section_id@,
        },
{
    match position_of(section_ids, section_id) {
        Some(i) => Ok(i),
        None => Err(ApiError::not_found("Section not found")),
    }
}

/// A world gets its default template only once: where it has templates,
/// the request is a "Conflict" ("World already has a sheet template").
pub fn check_no_template(has_templates: bool) -> (r: Result<(), ApiError>)
    ensures
        !has_templates <==> r is Ok,
        has_templates ==> (r matches Err(e) && e.status == conflict() && e.message@
            == "World already has a sheet template"@),
{
    if has_templates {
        Err(ApiError { status: 409, message: to_owned_string("World already has a sheet template") })
    } else {
        Ok(())
    }
}

} // verus!
