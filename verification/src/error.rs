//! Why a declaration was refused.

use vstd::prelude::*;
use vstd::string::StringExecFns;

verus! {

// The messages, and the pieces of the one that names a method.

pub const ONLY_NAMED_FIELDS: &'static str = "Only named fields are supported";

pub const ONLY_STRUCTS: &'static str = "Only structs are supported";

pub const EXPECTED_SIMPLE_STRUCT_TYPE: &'static str = "Expected simple struct type";

pub const UNSUPPORTED_ARGUMENT_TYPE: &'static str = "Unsupported argument type for method \"";

pub const ONLY_SIMPLE_IDENTIFIERS: &'static str = "Only simple identifiers supported";

pub const QUOTE: &'static str = "\"";

/// A declaration that no code is generated for.
///
/// `item` counts the items of the impl block from zero and `input` the inputs
/// of the method's signature, the receiver included, so that a caller can
/// point at the offending tokens.
#[derive(Clone, Debug, PartialEq, Eq)]
pub enum MacroError {
    /// The derive stands on a struct whose fields have no names.
    OnlyNamedFields,
    /// The derive stands on an enum or a union.
    OnlyStructs,
    /// The impl block is written for something other than a path with at
    /// least one segment.
    ExpectedSimpleStructType,
    /// An argument's type is none of reference, path, tuple, array, slice.
    UnsupportedArgumentType { item: usize, input: usize, method: String },
    /// An argument is bound by something other than a single identifier.
    OnlySimpleIdentifiers { item: usize, input: usize },
}

/// The view of a `MacroError`.
pub enum MacroErrorView {
    OnlyNamedFields,
    OnlyStructs,
    ExpectedSimpleStructType,
    UnsupportedArgumentType { item: nat, input: nat, method: Seq<char> },
    OnlySimpleIdentifiers { item: nat, input: nat },
}

impl View for MacroError {
    type V = MacroErrorView;

    open spec fn view(&self) -> MacroErrorView {
        match *self {
            MacroError::OnlyNamedFields => MacroErrorView::OnlyNamedFields,
            MacroError::OnlyStructs => MacroErrorView::OnlyStructs,
            MacroError::ExpectedSimpleStructType => MacroErrorView::ExpectedSimpleStructType,
            MacroError::UnsupportedArgumentType { item, input, method } => {
                MacroErrorView::UnsupportedArgumentType {
                    item: item as nat,
                    input: input as nat,
                    method: method@,
                }
            },
            MacroError::OnlySimpleIdentifiers { item, input } => {
                MacroErrorView::OnlySimpleIdentifiers { item: item as nat, input: input as nat }
            },
        }
    }
}

/// The text that reports `error` to the author of the declaration.
pub open spec fn message_text(error: MacroErrorView) -> Seq<char> {
    match error {
        MacroErrorView::OnlyNamedFields => ONLY_NAMED_FIELDS@,
        MacroErrorView::OnlyStructs => ONLY_STRUCTS@,
        MacroErrorView::ExpectedSimpleStructType => EXPECTED_SIMPLE_STRUCT_TYPE@,
        MacroErrorView::UnsupportedArgumentType { method, .. } => UNSUPPORTED_ARGUMENT_TYPE@
            + method + QUOTE@,
        MacroErrorView::OnlySimpleIdentifiers { .. } => ONLY_SIMPLE_IDENTIFIERS@,
    }
}

/// What a generator returned, by its view: the text of the code, or the
/// view of the error.
pub open spec fn outcome(result: Result<String, MacroError>) -> Result<Seq<char>, MacroErrorView> {
    match result {
        Ok(code) => Ok(code@),
        Err(error) => Err(error@),
    }
}

impl MacroError {
    /// The text that reports this error.
    pub fn message(&self) -> (text: String)
        ensures
            text@ == message_text(self@),
    {
        match self {
            MacroError::OnlyNamedFields => String::from_str(ONLY_NAMED_FIELDS),
            MacroError::OnlyStructs => String::from_str(ONLY_STRUCTS),
            MacroError::ExpectedSimpleStructType => String::from_str(EXPECTED_SIMPLE_STRUCT_TYPE),
            MacroError::UnsupportedArgumentType { method, .. } => {
                let mut text = String::from_str(UNSUPPORTED_ARGUMENT_TYPE);
                text.append(method.as_str());
                text.append(QUOTE);
                text
            },
            MacroError::OnlySimpleIdentifiers { .. } => String::from_str(ONLY_SIMPLE_IDENTIFIERS),
        }
    }
}

} // verus!
