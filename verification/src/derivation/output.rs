//! What the helper answers: the rewritten struct, the conversions that go
//! with it, or the reason why the item cannot be derived for.

use vstd::prelude::*;

verus! {

/// The type of a field of the rewritten struct.
#[derive(Debug, Clone, PartialEq, Eq)]
pub enum FieldType {
    /// `Tagged<inner, marker>`, where `inner` is the placeholder's first
    /// type argument as it was spelled.
    Tagged { inner: String, marker: String },
    /// The declared type, as it was spelled.
    Unchanged(String),
}

/// A field of the rewritten struct. Every field is public.
#[derive(Debug, Clone, PartialEq, Eq)]
pub struct FieldDef {
    pub name: String,
    pub ty: FieldType,
}

/// The four conversions of a struct `target` whose only field `field` is a
/// `Tagged<inner, target>`: from `inner` into the struct, from the struct
/// back into `inner`, dereferencing to `inner`, and displaying as `inner`
/// does.
#[derive(Debug, Clone, PartialEq, Eq)]
pub struct Conversions {
    pub target: String,
    pub field: String,
    /// The inner type, as it was spelled in the placeholder.
    pub inner: String,
}

/// What is emitted in place of the item: a public struct of the same name
/// with the rewritten fields, in the order in which they were declared, and
/// the conversions where there are any.
#[derive(Debug, Clone, PartialEq, Eq)]
pub struct Expansion {
    pub name: String,
    pub fields: Vec<FieldDef>,
    pub conversions: Option<Conversions>,
}

/// An [`Expansion`] with its fields as a sequence.
pub struct ExpansionView {
    pub name: String,
    pub fields: Seq<FieldDef>,
    pub conversions: Option<Conversions>,
}

impl View for Expansion {
    type V = ExpansionView;

    open spec fn view(&self) -> ExpansionView {
        ExpansionView { name: self.name, fields: self.fields@, conversions: self.conversions }
    }
}

/// Why an item cannot be derived for: its shape is not supported.
#[derive(Debug, Clone, Copy, PartialEq, Eq)]
pub enum DeriveError {
    /// The item is an enum or a union.
    NotAStruct,
    /// The item is a struct without named fields: a tuple struct or a unit
    /// struct.
    NoNamedFields,
}

impl DeriveError {
    /// The text of the compile-time failure.
    pub open spec fn spec_message(self) -> Seq<char> {
        match self {
            DeriveError::NotAStruct => "WithId can only be used on structs"@,
            DeriveError::NoNamedFields => "WithId only supports structs with named fields."@,
        }
    }

    /// The text with which compilation is made to fail.
    pub fn message(&self) -> (text: &'static str)
        ensures
            text@ == self.spec_message(),
    {
        match self {
            DeriveError::NotAStruct => "WithId can only be used on structs",
            DeriveError::NoNamedFields => "WithId only supports structs with named fields.",
        }
    }
}

} // verus!
