//! The derivation helper: from the definition of a struct whose fields are
//! spelled with the placeholder [`Id`], the definition of the same struct
//! with those fields tagged by the struct itself, and the conversions that
//! make a single-field struct of that kind behave like its inner value.
//!
//! The helper works on a plain description of the item, as a parser of Rust
//! source hands it over, and answers with a plain description of what is to
//! be emitted, or with that source as text.

pub mod expand;
pub mod input;
pub mod output;
pub mod render;

pub use expand::derive_tagged;
pub use expand::with_id_macro;
pub use input::FieldDecl;
pub use input::FieldList;
pub use input::Id;
pub use input::ItemBody;
pub use input::ItemDef;
pub use input::PathSegment;
pub use input::SegmentArgs;
pub use input::TypeShape;
pub use output::Conversions;
pub use output::DeriveError;
pub use output::Expansion;
pub use output::ExpansionView;
pub use output::FieldDef;
pub use output::FieldType;
