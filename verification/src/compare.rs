//! Equality and ordering of wrappers. Both are those of the inner values:
//! the marker takes no part, and a wrapper can be compared exactly when its
//! inner type can.

use crate::tagged::Tagged;
use core::cmp::Ordering;
use vstd::prelude::*;
use vstd::std_specs::cmp::PartialEqSpec;
use vstd::std_specs::cmp::PartialOrdSpec;

verus! {

impl<T: PartialEq, Tag> PartialEq for Tagged<T, Tag> {
    /// Compares the inner values with the inner type's `==` and returns its
    /// answer.
    fn eq(&self, other: &Self) -> (equal: bool)
        ensures
            T::eq.ensures((&self@, &other@), equal),
    {
        self.value().eq(other.value())
    }
}

impl<T: PartialEq, Tag> vstd::std_specs::cmp::PartialEqSpecImpl for Tagged<T, Tag> {
    /// `==` on wrappers is as well behaved as `==` on the inner type.
    open spec fn obeys_eq_spec() -> bool {
        T::obeys_eq_spec()
    }

    /// What `==` means: the inner values are equal by the inner type's `==`.
    open spec fn eq_spec(&self, other: &Self) -> bool {
        self@.eq_spec(&other@)
    }
}

impl<T: Eq, Tag> Eq for Tagged<T, Tag> {

}

impl<T: PartialOrd, Tag> PartialOrd for Tagged<T, Tag> {
    /// Orders the inner values with the inner type's `partial_cmp` and
    /// returns its answer.
    fn partial_cmp(&self, other: &Self) -> (order: Option<Ordering>)
        ensures
            T::partial_cmp.ensures((&self@, &other@), order),
    {
        self.value().partial_cmp(other.value())
    }
}

impl<T: PartialOrd, Tag> vstd::std_specs::cmp::PartialOrdSpecImpl for Tagged<T, Tag> {
    /// `<` on wrappers is as well behaved as `<` on the inner type.
    open spec fn obeys_partial_cmp_spec() -> bool {
        T::obeys_partial_cmp_spec()
    }

    /// How two wrappers compare: as their inner values do.
    open spec fn partial_cmp_spec(&self, other: &Self) -> Option<Ordering> {
        self@.partial_cmp_spec(&other@)
    }
}

impl<T: Ord, Tag> Ord for Tagged<T, Tag> {
    /// Calls `Ord::cmp` of the inner type on the two inner values and returns
    /// its answer. Not proved: the contract says only that the answer is one
    /// that the inner type's `cmp` gives for the two inner values.
    #[verifier::external_body]
    fn cmp(&self, other: &Self) -> (order: Ordering)
        ensures
            T::cmp.ensures((&self@, &other@), order),
    {
        self.value.cmp(&other.value)
    }
}

/// Equality ignores the marker entirely: two wrappers made from `first` and
/// `second` are equal by `==` exactly when `first` and `second` are, and `==`
/// on wrappers can be relied on whenever `==` on the inner type can.
pub proof fn law_eq_is_inner_eq<T: PartialEq, Tag>(first: T, second: T)
    ensures
        Tagged::<T, Tag>::new(first).eq_spec(&Tagged::<T, Tag>::new(second))
            == first.eq_spec(&second),
        Tagged::<T, Tag>::obeys_eq_spec() == T::obeys_eq_spec(),
{
    Tagged::<T, Tag>::law_new_holds_value(first);
    Tagged::<T, Tag>::law_new_holds_value(second);
}

/// Ordering mirrors the inner type's ordering exactly: two wrappers made from
/// `first` and `second` compare as `first` and `second` do.
pub proof fn law_order_is_inner_order<T: PartialOrd, Tag>(first: T, second: T)
    ensures
        Tagged::<T, Tag>::new(first).partial_cmp_spec(&Tagged::<T, Tag>::new(second))
            == first.partial_cmp_spec(&second),
        Tagged::<T, Tag>::obeys_partial_cmp_spec() == T::obeys_partial_cmp_spec(),
{
    Tagged::<T, Tag>::law_new_holds_value(first);
    Tagged::<T, Tag>::law_new_holds_value(second);
}

} // verus!
