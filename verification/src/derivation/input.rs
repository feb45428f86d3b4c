//! What the helper reads of an item: its name, its kind, and of each named
//! field the name and the declared type, as it is spelled and as a path.

use vstd::prelude::*;

verus! {

/// The placeholder that marks a field to be tagged: `Id<u32>` in the
/// definition of `User` stands for `Tagged<u32, User>`.
///
/// It holds its value and nothing else; it is only ever written in source
/// that the helper rewrites.
#[derive(Debug, Clone, PartialEq, Eq, PartialOrd, Ord, Hash)]
pub struct Id<T>(pub T);

/// The generic arguments written behind one segment of a path.
#[derive(Debug, Clone, PartialEq, Eq)]
pub enum SegmentArgs {
    /// No arguments, as in `String`.
    Absent,
    /// Arguments in angle brackets, as in `Id<u32>`: the spelling of each.
    AngleBracketed(Vec<String>),
    /// Arguments in round brackets, as in `Fn(u32) -> bool`.
    Parenthesized,
}

/// One segment of a path: an identifier and its generic arguments.
#[derive(Debug, Clone, PartialEq, Eq)]
pub struct PathSegment {
    pub ident: String,
    pub args: SegmentArgs,
}

/// The form of a declared type, as far as the helper looks into it.
#[derive(Debug, Clone, PartialEq, Eq)]
pub enum TypeShape {
    /// A path, as in `std::string::String`: its segments in order.
    Path(Vec<PathSegment>),
    /// Any other type: a reference, a tuple, an array and so on.
    Other,
}

/// A named field: its name and its declared type.
#[derive(Debug, Clone, PartialEq, Eq)]
pub struct FieldDecl {
    pub name: String,
    /// The declared type as it is written.
    pub spelling: String,
    /// The declared type taken apart.
    pub shape: TypeShape,
}

/// The fields of a struct.
#[derive(Debug, Clone, PartialEq, Eq)]
pub enum FieldList {
    /// `struct S { a: A, b: B }`
    Named(Vec<FieldDecl>),
    /// `struct S(A, B);`
    Unnamed,
    /// `struct S;`
    Unit,
}

/// What kind of item a definition is.
#[derive(Debug, Clone, PartialEq, Eq)]
pub enum ItemBody {
    Struct(FieldList),
    Enum,
    Union,
}

/// The definition that the helper is applied to.
#[derive(Debug, Clone, PartialEq, Eq)]
pub struct ItemDef {
    pub name: String,
    pub body: ItemBody,
}

} // verus!
