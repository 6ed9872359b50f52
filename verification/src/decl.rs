//! The declarations that code is generated from, as plain data.
//!
//! A caller that holds a syntax tree fills these types in: every name is the
//! text of an identifier, every type is the text of its tokens. Each type has
//! a view, in which strings are sequences of characters and vectors are
//! sequences; the contracts of the generators are stated over the views.

use vstd::prelude::*;

verus! {

/// The text of every string in `names`, in order.
pub open spec fn texts(names: Seq<String>) -> Seq<Seq<char>> {
    names.map_values(|s: String| s@)
}

/// The body of the item that a derive stands on.
#[derive(Clone, Debug, PartialEq, Eq)]
pub enum DataShape {
    /// A struct with named fields, which are listed in declaration order.
    NamedStruct { fields: Vec<String> },
    /// A struct with positional fields.
    TupleStruct,
    /// A struct without fields.
    UnitStruct,
    /// An enum.
    Enum,
    /// A union.
    Union,
}

/// The view of a `DataShape`: the field names as texts.
pub enum DataShapeView {
    NamedStruct { fields: Seq<Seq<char>> },
    TupleStruct,
    UnitStruct,
    Enum,
    Union,
}

impl View for DataShape {
    type V = DataShapeView;

    open spec fn view(&self) -> DataShapeView {
        match *self {
            DataShape::NamedStruct { fields } => DataShapeView::NamedStruct {
                fields: texts(fields@),
            },
            DataShape::TupleStruct => DataShapeView::TupleStruct,
            DataShape::UnitStruct => DataShapeView::UnitStruct,
            DataShape::Enum => DataShapeView::Enum,
            DataShape::Union => DataShapeView::Union,
        }
    }
}

/// The item that a derive stands on: its name and its body.
#[derive(Clone, Debug, PartialEq, Eq)]
pub struct DeriveInput {
    pub name: String,
    pub data: DataShape,
}

/// The view of a `DeriveInput`.
pub struct DeriveInputView {
    pub name: Seq<char>,
    pub data: DataShapeView,
}

impl View for DeriveInput {
    type V = DeriveInputView;

    open spec fn view(&self) -> DeriveInputView {
        DeriveInputView { name: self.name@, data: self.data@ }
    }
}

/// The type that an impl block is written for.
#[derive(Clone, Debug, PartialEq, Eq)]
pub enum SelfType {
    /// A path; `segments` holds the identifier of each segment, in order.
    Path { segments: Vec<String> },
    /// Any other type.
    Other,
}

/// The view of a `SelfType`: the segments as texts.
pub enum SelfTypeView {
    Path { segments: Seq<Seq<char>> },
    Other,
}

impl View for SelfType {
    type V = SelfTypeView;

    open spec fn view(&self) -> SelfTypeView {
        match *self {
            SelfType::Path { segments } => SelfTypeView::Path { segments: texts(segments@) },
            SelfType::Other => SelfTypeView::Other,
        }
    }
}

/// The declared type of a method argument.
#[derive(Clone, Debug, PartialEq, Eq)]
pub enum ArgType {
    /// A reference; `referent` is the text of the type behind it.
    Reference { mutable: bool, referent: String },
    /// A path type, with its text.
    Path { text: String },
    /// A tuple type, with its text.
    Tuple { text: String },
    /// An array type, with its text.
    Array { text: String },
    /// A slice type, with its text.
    Slice { text: String },
    /// Any other type.
    Other,
}

/// The view of an `ArgType`.
pub enum ArgTypeView {
    Reference { mutable: bool, referent: Seq<char> },
    Path { text: Seq<char> },
    Tuple { text: Seq<char> },
    Array { text: Seq<char> },
    Slice { text: Seq<char> },
    Other,
}

impl View for ArgType {
    type V = ArgTypeView;

    open spec fn view(&self) -> ArgTypeView {
        match *self {
            ArgType::Reference { mutable, referent } => ArgTypeView::Reference {
                mutable,
                referent: referent@,
            },
            ArgType::Path { text } => ArgTypeView::Path { text: text@ },
            ArgType::Tuple { text } => ArgTypeView::Tuple { text: text@ },
            ArgType::Array { text } => ArgTypeView::Array { text: text@ },
            ArgType::Slice { text } => ArgTypeView::Slice { text: text@ },
            ArgType::Other => ArgTypeView::Other,
        }
    }
}

/// The pattern that binds a method argument.
#[derive(Clone, Debug, PartialEq, Eq)]
pub enum Pattern {
    /// A single identifier.
    Ident { name: String },
    /// Any other pattern.
    Other,
}

/// The view of a `Pattern`.
pub enum PatternView {
    Ident { name: Seq<char> },
    Other,
}

impl View for Pattern {
    type V = PatternView;

    open spec fn view(&self) -> PatternView {
        match *self {
            Pattern::Ident { name } => PatternView::Ident { name: name@ },
            Pattern::Other => PatternView::Other,
        }
    }
}

/// One input of a method signature.
#[derive(Clone, Debug, PartialEq, Eq)]
pub enum Param {
    /// A `self` receiver; `mutable` tells whether it is written with `mut`.
    Receiver { mutable: bool },
    /// An argument with a pattern and a type.
    Typed { pattern: Pattern, ty: ArgType },
}

/// The view of a `Param`.
pub enum ParamView {
    Receiver { mutable: bool },
    Typed { pattern: PatternView, ty: ArgTypeView },
}

impl View for Param {
    type V = ParamView;

    open spec fn view(&self) -> ParamView {
        match *self {
            Param::Receiver { mutable } => ParamView::Receiver { mutable },
            Param::Typed { pattern, ty } => ParamView::Typed { pattern: pattern@, ty: ty@ },
        }
    }
}

/// The view of every input in `params`, in order.
pub open spec fn param_views(params: Seq<Param>) -> Seq<ParamView> {
    params.map_values(|p: Param| p@)
}

/// A method of an impl block: its name and the inputs of its signature.
#[derive(Clone, Debug, PartialEq, Eq)]
pub struct Method {
    pub name: String,
    pub inputs: Vec<Param>,
}

/// The view of a `Method`: its name as text and the views of its inputs.
pub struct MethodView {
    pub name: Seq<char>,
    pub inputs: Seq<ParamView>,
}

impl View for Method {
    type V = MethodView;

    open spec fn view(&self) -> MethodView {
        MethodView { name: self.name@, inputs: param_views(self.inputs@) }
    }
}

/// One item of an impl block.
#[derive(Clone, Debug, PartialEq, Eq)]
pub enum ImplEntry {
    /// A method.
    Method(Method),
    /// Anything else: a constant, a type, a macro call.
    Other,
}

/// The view of an `ImplEntry`.
pub enum ImplEntryView {
    Method(MethodView),
    Other,
}

impl View for ImplEntry {
    type V = ImplEntryView;

    open spec fn view(&self) -> ImplEntryView {
        match *self {
            ImplEntry::Method(method) => ImplEntryView::Method(method@),
            ImplEntry::Other => ImplEntryView::Other,
        }
    }
}

/// The view of every item in `items`, in order.
pub open spec fn entry_views(items: Seq<ImplEntry>) -> Seq<ImplEntryView> {
    items.map_values(|e: ImplEntry| e@)
}

/// An impl block: the type it is written for and its items, in order.
#[derive(Clone, Debug, PartialEq, Eq)]
pub struct ImplBlock {
    pub self_ty: SelfType,
    pub items: Vec<ImplEntry>,
}

/// The view of an `ImplBlock`.
pub struct ImplBlockView {
    pub self_ty: SelfTypeView,
    pub items: Seq<ImplEntryView>,
}

impl View for ImplBlock {
    type V = ImplBlockView;

    open spec fn view(&self) -> ImplBlockView {
        ImplBlockView { self_ty: self.self_ty@, items: entry_views(self.items@) }
    }
}

} // verus!
