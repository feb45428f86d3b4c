//! Display and debug formatting of wrappers: both print the inner value and
//! never the marker, which has nothing to print.

use crate::tagged::Tagged;
use core::fmt;
use vstd::prelude::*;

verus! {

/// `core::fmt::Formatter`, the sink that the formatting traits write to.
/// Nothing is known of what it holds.
#[verifier::external_type_specification]
#[verifier::external_body]
pub struct ExFormatter<'a>(core::fmt::Formatter<'a>);

/// `core::fmt::Error`, the error of a formatting call. It carries no data.
#[verifier::external_type_specification]
#[verifier::external_body]
pub struct ExFmtError(core::fmt::Error);

impl<T: fmt::Display, Tag> fmt::Display for Tagged<T, Tag> {
    /// Calls `Display::fmt` of the inner type on the inner value, with the
    /// formatter it was given, and returns what that call returned. Not
    /// proved, and nothing is claimed of the text that is written.
    #[verifier::external_body]
    fn fmt(&self, f: &mut fmt::Formatter<'_>) -> fmt::Result {
        fmt::Display::fmt(&self.value, f)
    }
}

impl<T: fmt::Debug, Tag> fmt::Debug for Tagged<T, Tag> {
    /// Calls `Debug::fmt` of the inner type on the inner value, with the
    /// formatter it was given, and returns what that call returned. Not
    /// proved, and nothing is claimed of the text that is written.
    #[verifier::external_body]
    fn fmt(&self, f: &mut fmt::Formatter<'_>) -> fmt::Result {
        fmt::Debug::fmt(&self.value, f)
    }
}

} // verus!
