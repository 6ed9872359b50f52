//! Field accessors: for a struct with named fields, the source text of an
//! impl of `DynamicGetter` that finds a field by its name, tells whether a
//! name is a field, and lists the names.

use crate::decl::{texts, DataShape, DataShapeView, DeriveInput, DeriveInputView};
use crate::error::{outcome, MacroError, MacroErrorView};
use vstd::prelude::*;
use vstd::string::StringExecFns;

verus! {

// The fixed pieces of the generated impl, in the order in which they are
// written.

pub const IMPL_OPEN: &'static str = "impl DynamicGetter for ";

pub const GET_FIELD_OPEN: &'static str =
    " {\n    fn get_field(&self, name: &str) -> Option<&dyn std::any::Any> {\n        match name {\n";

pub const GET_FIELD_CLOSE: &'static str = "            _ => None,\n        }\n    }\n\n";

pub const HAS_FIELD_OPEN: &'static str =
    "    fn has_field(&self, name: &str) -> bool {\n        match name {\n";

pub const HAS_FIELD_CLOSE: &'static str = "            _ => false,\n        }\n    }\n\n";

pub const FIELD_NAMES_OPEN: &'static str =
    "    fn field_names(&self) -> Vec<String> {\n        vec![\n";

pub const FIELD_NAMES_CLOSE: &'static str = "        ]\n    }\n}\n";

// The fixed pieces of the entries that are written for each field.

pub const ENTRY_OPEN: &'static str = "            \"";

pub const GET_ARM_SELECT: &'static str = "\" => Some(&self.";

pub const GET_ARM_CLOSE: &'static str = " as &dyn std::any::Any),\n";

pub const HAS_ARM_CLOSE: &'static str = "\" => true,\n";

pub const NAME_CLOSE: &'static str = "\".to_string(),\n";

/// The match arm that hands out the field `field` as `&dyn Any`.
pub open spec fn get_arm(field: Seq<char>) -> Seq<char> {
    ENTRY_OPEN@ + field + GET_ARM_SELECT@ + field + GET_ARM_CLOSE@
}

/// The match arm that accepts the name `field`.
pub open spec fn has_arm(field: Seq<char>) -> Seq<char> {
    ENTRY_OPEN@ + field + HAS_ARM_CLOSE@
}

/// The element of the list of names that holds `field`.
pub open spec fn name_entry(field: Seq<char>) -> Seq<char> {
    ENTRY_OPEN@ + field + NAME_CLOSE@
}

/// One `get_arm` for each field, in order.
pub open spec fn get_arms(fields: Seq<Seq<char>>) -> Seq<char>
    decreases fields.len(),
{
    if fields.len() == 0 {
        Seq::<char>::empty()
    } else {
        get_arms(fields.drop_last()) + get_arm(fields.last())
    }
}

/// One `has_arm` for each field, in order.
pub open spec fn has_arms(fields: Seq<Seq<char>>) -> Seq<char>
    decreases fields.len(),
{
    if fields.len() == 0 {
        Seq::<char>::empty()
    } else {
        has_arms(fields.drop_last()) + has_arm(fields.last())
    }
}

/// One `name_entry` for each field, in order.
pub open spec fn name_entries(fields: Seq<Seq<char>>) -> Seq<char>
    decreases fields.len(),
{
    if fields.len() == 0 {
        Seq::<char>::empty()
    } else {
        name_entries(fields.drop_last()) + name_entry(fields.last())
    }
}

/// The impl of `DynamicGetter` for the struct `name` with the named fields
/// `fields`: `get_field`, `has_field` and `field_names`, each with one entry
/// per field in declaration order, and a fallback for every other name.
pub open spec fn accessor_impl(name: Seq<char>, fields: Seq<Seq<char>>) -> Seq<char> {
    IMPL_OPEN@ + name + GET_FIELD_OPEN@ + get_arms(fields) + GET_FIELD_CLOSE@ + HAS_FIELD_OPEN@
        + has_arms(fields) + HAS_FIELD_CLOSE@ + FIELD_NAMES_OPEN@ + name_entries(fields)
        + FIELD_NAMES_CLOSE@
}

/// What the derive makes of `input`: the accessors of a struct with named
/// fields, and an error for every other item.
pub open spec fn accessors(input: DeriveInputView) -> Result<Seq<char>, MacroErrorView> {
    match input.data {
        DataShapeView::NamedStruct { fields } => Ok(accessor_impl(input.name, fields)),
        DataShapeView::TupleStruct | DataShapeView::UnitStruct => Err(
            MacroErrorView::OnlyNamedFields,
        ),
        DataShapeView::Enum | DataShapeView::Union => Err(MacroErrorView::OnlyStructs),
    }
}

fn push_get_arms(out: &mut String, fields: &Vec<String>)
    ensures
        final(out)@ == old(out)@ + get_arms(texts(fields@)),
{
    let ghost names = texts(fields@);
    assert(out@ =~= old(out)@ + get_arms(names.take(0)));
    for i in 0..fields.len()
        invariant
            names == texts(fields@),
            out@ == old(out)@ + get_arms(names.take(i as int)),
    {
        let field = fields[i].as_str();
        out.append(ENTRY_OPEN);
        out.append(field);
        out.append(GET_ARM_SELECT);
        out.append(field);
        out.append(GET_ARM_CLOSE);
        proof {
            assert(names.take(i + 1).drop_last() == names.take(i as int));
            assert(out@ =~= old(out)@ + get_arms(names.take(i + 1)));
        }
    }
    assert(names.take(fields.len() as int) == names);
}

fn push_has_arms(out: &mut String, fields: &Vec<String>)
    ensures
        final(out)@ == old(out)@ + has_arms(texts(fields@)),
{
    let ghost names = texts(fields@);
    assert(out@ =~= old(out)@ + has_arms(names.take(0)));
    for i in 0..fields.len()
        invariant
            names == texts(fields@),
            out@ == old(out)@ + has_arms(names.take(i as int)),
    {
        out.append(ENTRY_OPEN);
        out.append(fields[i].as_str());
        out.append(HAS_ARM_CLOSE);
        proof {
            assert(names.take(i + 1).drop_last() == names.take(i as int));
            assert(out@ =~= old(out)@ + has_arms(names.take(i + 1)));
        }
    }
    assert(names.take(fields.len() as int) == names);
}

fn push_name_entries(out: &mut String, fields: &Vec<String>)
    ensures
        final(out)@ == old(out)@ + name_entries(texts(fields@)),
{
    let ghost names = texts(fields@);
    assert(out@ =~= old(out)@ + name_entries(names.take(0)));
    for i in 0..fields.len()
        invariant
            names == texts(fields@),
            out@ == old(out)@ + name_entries(names.take(i as int)),
    {
        out.append(ENTRY_OPEN);
        out.append(fields[i].as_str());
        out.append(NAME_CLOSE);
        proof {
            assert(names.take(i + 1).drop_last() == names.take(i as int));
            assert(out@ =~= old(out)@ + name_entries(names.take(i + 1)));
        }
    }
    assert(names.take(fields.len() as int) == names);
}

/// Writes the impl of `DynamicGetter` for a struct with the given name and
/// named fields.
pub fn render_accessors(name: &str, fields: &Vec<String>) -> (code: String)
    ensures
        code@ == accessor_impl(name@, texts(fields@)),
{
    let mut code = String::from_str(IMPL_OPEN);
    code.append(name);
    code.append(GET_FIELD_OPEN);
    push_get_arms(&mut code, fields);
    code.append(GET_FIELD_CLOSE);
    code.append(HAS_FIELD_OPEN);
    push_has_arms(&mut code, fields);
    code.append(HAS_FIELD_CLOSE);
    code.append(FIELD_NAMES_OPEN);
    push_name_entries(&mut code, fields);
    code.append(FIELD_NAMES_CLOSE);
    code
}

/// Generates the field accessors for the item that the derive stands on.
///
/// A struct with named fields gets its impl of `DynamicGetter`; a struct
/// without named fields, an enum and a union are refused.
pub fn derive_dynamic_get(input: &DeriveInput) -> (result: Result<String, MacroError>)
    ensures
        outcome(result) == accessors(input@),
{
    match &input.data {
        DataShape::NamedStruct { fields } => Ok(render_accessors(input.name.as_str(), fields)),
        DataShape::TupleStruct | DataShape::UnitStruct => Err(MacroError::OnlyNamedFields),
        DataShape::Enum | DataShape::Union => Err(MacroError::OnlyStructs),
    }
}

} // verus!
