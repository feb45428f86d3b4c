//! Making wrappers from values: conversion in, cloning and the default.

use crate::tagged::Tagged;
use vstd::prelude::*;
use vstd::std_specs::convert::FromSpecImpl;

verus! {

impl<T, Tag> From<T> for Tagged<T, Tag> {
    /// Wraps `value`, so that a plain value can be written where a wrapper
    /// is expected and converted with `into()`.
    fn from(value: T) -> (tagged: Self)
        ensures
            tagged@ == value,
    {
        Tagged::new(value)
    }
}

impl<T, Tag> FromSpecImpl<T> for Tagged<T, Tag> {
    open spec fn obeys_from_spec() -> bool {
        true
    }

    open spec fn from_spec(value: T) -> Self {
        Self::new(value)
    }
}

impl<Tag> From<&str> for Tagged<String, Tag> {
    /// Copies the text into an owned string and wraps it.
    fn from(text: &str) -> (tagged: Self)
        ensures
            tagged@@ == text@,
    {
        Tagged::new(text.to_owned())
    }
}

impl<Tag> FromSpecImpl<&str> for Tagged<String, Tag> {
    /// The owned copy is pinned by its characters, which `from` states
    /// itself, and not as one particular string value.
    open spec fn obeys_from_spec() -> bool {
        false
    }

    /// A wrapper of some string with the characters of `text`.
    open spec fn from_spec(text: &str) -> Self {
        Self::new(choose|owned: String| owned@ == text@)
    }
}

impl<Tag> From<&String> for Tagged<String, Tag> {
    /// Clones the string and wraps the clone.
    fn from(text: &String) -> (tagged: Self)
        ensures
            tagged@ == *text,
    {
        Tagged::new(text.clone())
    }
}

impl<Tag> FromSpecImpl<&String> for Tagged<String, Tag> {
    open spec fn obeys_from_spec() -> bool {
        true
    }

    open spec fn from_spec(text: &String) -> Self {
        Self::new(*text)
    }
}

impl<T: Clone, Tag> Clone for Tagged<T, Tag> {
    /// Clones the inner value and wraps the clone: the copy holds whatever
    /// the inner type's `clone` makes of the value held here.
    fn clone(&self) -> (copy: Self)
        ensures
            cloned(self@, copy@),
    {
        Tagged::new(self.value().clone())
    }
}

impl<T: Default, Tag> Default for Tagged<T, Tag> {
    /// Wraps the inner type's default value.
    fn default() -> (tagged: Self)
        ensures
            T::default.ensures((), tagged@),
    {
        Tagged::new(T::default())
    }
}

} // verus!
