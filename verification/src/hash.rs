//! Hashing of wrappers: a wrapper hashes as its inner value does.

use crate::tagged::Tagged;
use core::hash::Hash;
use core::hash::Hasher;
use vstd::prelude::*;

verus! {

impl<T: Hash, Tag> Hash for Tagged<T, Tag> {
    /// Calls `Hash::hash` of the inner type on the inner value, with the
    /// hasher it was given: the marker feeds nothing into the hasher. Not
    /// proved, and nothing is claimed of the hasher's state afterwards.
    #[verifier::external_body]
    fn hash<H: Hasher>(&self, state: &mut H) {
        self.value.hash(state)
    }
}

} // verus!
