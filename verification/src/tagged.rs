//! The wrapper type: construction, read access and replacement of the value.

use core::marker::PhantomData;
use core::ops::Deref;
use vstd::prelude::*;

verus! {

/// A value of type `T` that carries the compile-time marker `Tag`.
///
/// The marker is never stored or inspected: the inner value is the only data,
/// and it is the wrapper's view. `Tagged<T, A>` and `Tagged<T, B>` are
/// different types, and nothing converts one into the other implicitly.
pub struct Tagged<T, Tag> {
    pub(crate) value: T,
    _marker: PhantomData<Tag>,
}

impl<T, Tag> View for Tagged<T, Tag> {
    type V = T;

    /// The inner value.
    closed spec fn view(&self) -> T {
        self.value
    }
}

impl<T, Tag> Tagged<T, Tag> {
    /// The wrapper that holds `value`.
    pub closed spec fn spec_new(value: T) -> Self {
        Tagged { value, _marker: PhantomData }
    }

    /// The wrapper after its value was replaced by `new_value`: nothing of
    /// the old value is kept.
    pub open spec fn spec_set(self, new_value: T) -> Self {
        Self::new(new_value)
    }

    /// Wraps `value`. Always succeeds; the value is not inspected.
    #[verifier::when_used_as_spec(spec_new)]
    pub fn new(value: T) -> (tagged: Self)
        ensures
            tagged == Self::spec_new(value),
            tagged@ == value,
    {
        Self { value, _marker: PhantomData }
    }

    /// A reference to the inner value.
    ///
    /// Discouraged: taking the raw value out of sight of the marker defeats
    /// the wrapper. Prefer dereferencing, or [`Tagged::into_inner`] where the
    /// value really has to leave.
    pub fn value(&self) -> (inner: &T)
        ensures
            *inner == self@,
    {
        &self.value
    }

    /// Replaces the whole inner value with `new_value`.
    ///
    /// This is the only mutation: no mutable access to the inner value is
    /// handed out.
    pub fn set(&mut self, new_value: T)
        ensures
            *final(self) == old(self).spec_set(new_value),
            final(self)@ == new_value,
            old(self)@ != new_value ==> final(self)@ != old(self)@,
    {
        self.value = new_value;
    }

    /// Unwraps the inner value, consuming the wrapper.
    pub fn into_inner(self) -> (inner: T)
        ensures
            inner == self@,
    {
        self.value
    }

    /// A freshly made wrapper holds exactly the value it was made from.
    pub proof fn law_new_holds_value(value: T)
        ensures
            Self::new(value)@ == value,
    {
    }

    /// A wrapper is nothing but its inner value: two wrappers with the same
    /// marker are the same exactly when their inner values are, and every
    /// wrapper is the one that `new` makes from its value.
    pub proof fn law_determined_by_value(a: Self, b: Self)
        ensures
            a == b <==> a@ == b@,
            a == Self::new(a@),
    {
    }

    /// Wrapping is injective: wrappers of two values are equal exactly when
    /// the values are.
    pub proof fn law_new_is_injective(first: T, second: T)
        ensures
            Self::new(first) == Self::new(second) <==> first == second,
    {
    }

    /// After a replacement the wrapper holds the new value, whatever it held
    /// before, and so no longer the old one if the two differ.
    pub proof fn law_replacement(before: Self, new_value: T)
        ensures
            before.spec_set(new_value)@ == new_value,
            before@ != new_value ==> before.spec_set(new_value)@ != before@,
    {
    }
}

impl<T, Tag> Deref for Tagged<T, Tag> {
    type Target = T;

    /// Transparent read access: the wrapper can stand wherever a reference
    /// to the inner value is expected.
    fn deref(&self) -> (inner: &T)
        ensures
            *inner == self@,
    {
        &self.value
    }
}

} // verus!
