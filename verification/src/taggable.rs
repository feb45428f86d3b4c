//! The capability that every wrapper has, for signatures that ask for "some
//! tagged value" without naming its inner type or its marker.

use crate::tagged::Tagged;
use vstd::prelude::*;

verus! {

/// Implemented by every [`Tagged`], and by nothing else in this crate.
///
/// A function bounded by `Taggable` cannot be handed a bare value by
/// mistake: a plain `u32` is not `Taggable`, a `Tagged<u32, UserId>` is.
pub trait Taggable {
    /// The type of the wrapped value.
    type Inner;

    /// The marker.
    type Tag;
}

impl<T, Tag> Taggable for Tagged<T, Tag> {
    type Inner = T;

    type Tag = Tag;
}

} // verus!
