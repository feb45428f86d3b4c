//! Iteration over a wrapped vector, by value and by reference.

use crate::tagged::Tagged;
use vstd::prelude::*;
use vstd::std_specs::iter::IteratorSpec;
use vstd::std_specs::vec::spec_into_iter;

verus! {

impl<T, Tag> IntoIterator for Tagged<Vec<T>, Tag> {
    type Item = T;

    type IntoIter = std::vec::IntoIter<T>;

    /// Consumes the wrapper and yields the elements of the inner vector, by
    /// value and in order: the iterator is the inner vector's own.
    fn into_iter(self) -> (iter: Self::IntoIter)
        ensures
            iter == spec_into_iter(self@),
            IteratorSpec::remaining(&iter) == self@@,
            IteratorSpec::decrease(&iter) is Some,
            IteratorSpec::initial_value_relation(&iter, &iter),
    {
        self.into_inner().into_iter()
    }
}

impl<'a, T, Tag> IntoIterator for &'a Tagged<Vec<T>, Tag> {
    type Item = &'a T;

    type IntoIter = std::slice::Iter<'a, T>;

    /// Borrows the wrapper and yields references to the elements of the
    /// inner vector, in order. The wrapper stays usable afterwards.
    fn into_iter(self) -> (iter: Self::IntoIter)
        ensures
            IteratorSpec::remaining(&iter) == self@@.as_ref(),
            IteratorSpec::decrease(&iter) is Some,
            IteratorSpec::initial_value_relation(&iter, &iter),
    {
        self.value().iter()
    }
}

} // verus!
