//! Strongly typed wrappers over plain values.
//!
//! A [`Tagged<T, Tag>`] holds exactly one `T`. The marker `Tag` exists only in
//! the type: it takes no room and is never looked at, yet it keeps a user's
//! e-mail address from being passed where an organisation's is expected,
//! though both are strings.
//!
//! - [`tagged`]: the wrapper, its construction, read access and replacement;
//! - [`convert`]: conversion from plain values, cloning, the default;
//! - [`compare`]: equality and ordering, which are those of the inner values;
//! - [`hash`] and [`format`]: hashing and printing, handed to the inner value;
//! - [`iterate`]: iteration over a wrapped vector;
//! - [`json`]: encoding and decoding with a codec for the inner type;
//! - [`taggable`]: the capability that every wrapper has;
//! - [`derivation`]: rewriting a struct whose fields are spelled with the
//!   placeholder [`Id`] into one whose fields are tagged by the struct.
//!
//! The model of a wrapper is its inner value, which `tagged@` denotes; every
//! contract is stated over it.

pub mod compare;
pub mod convert;
pub mod derivation;
pub mod format;
pub mod hash;
pub mod iterate;
pub mod json;
pub mod taggable;
pub mod tagged;

pub use derivation::Id;
pub use taggable::Taggable;
pub use tagged::Tagged;
