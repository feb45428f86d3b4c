//! Text encoding and decoding of wrappers.
//!
//! A wrapper adds nothing to the encoded form: what is encoded is the inner
//! value, and what is decoded is an inner value that is then wrapped. The
//! codec itself is the caller's: it is passed in as a function, such as
//! `serde_json::to_string` and `serde_json::from_str` at the inner type, and
//! every contract here is stated relative to what that function promises.

use crate::tagged::Tagged;
use serde_json::Error;
use vstd::prelude::*;

verus! {

/// `serde_json::Error`: why a text could not be decoded, or a value not
/// encoded. It is only carried through; nothing is known of what it holds.
#[verifier::external_type_specification]
#[verifier::external_body]
pub struct ExJsonError(serde_json::Error);

impl<T, Tag> Tagged<T, Tag> {
    /// A decoding outcome with the value wrapped: a decoded value becomes
    /// the wrapper that holds it, a failure stays the same failure.
    pub open spec fn spec_from_decoded<E>(decoded: Result<T, E>) -> Result<Self, E> {
        match decoded {
            Ok(value) => Ok(Self::new(value)),
            Err(error) => Err(error),
        }
    }

    /// The inverse of [`Tagged::spec_from_decoded`]: the outcome with the
    /// wrapper taken off again.
    pub open spec fn spec_decoded<E>(wrapped: Result<Self, E>) -> Result<T, E> {
        match wrapped {
            Ok(tagged) => Ok(tagged@),
            Err(error) => Err(error),
        }
    }

    /// Wraps the outcome of a decoder for the inner type.
    ///
    /// Succeeds exactly when the decoder did, with exactly its value; a
    /// failure is handed on unchanged and no wrapper is made.
    pub fn from_decoded<E>(decoded: Result<T, E>) -> (wrapped: Result<Self, E>)
        ensures
            wrapped == Self::spec_from_decoded(decoded),
            Self::spec_decoded(wrapped) == decoded,
    {
        match decoded {
            Ok(value) => Ok(Tagged::new(value)),
            Err(error) => Err(error),
        }
    }

    /// Decodes `json` with `decode` and wraps what comes out.
    ///
    /// The decoder is applied to `json` itself, once. The result is `Ok`
    /// exactly when the decoder returned `Ok`, and then holds the decoded
    /// value; where the text is malformed for the inner type, the decoder's
    /// error is returned as it is.
    pub fn from_json<'a, D>(json: &'a str, decode: D) -> (wrapped: Result<Self, Error>) where
        D: FnOnce(&'a str) -> Result<T, Error>,

        requires
            decode.requires((json,)),
        ensures
            decode.ensures((json,), Self::spec_decoded(wrapped)),
    {
        Self::from_decoded(decode(json))
    }

    /// As [`Tagged::from_json`], for a text that the caller owns: the decoder
    /// is applied to the characters of `json`.
    pub fn from_json_string<D>(json: String, decode: D) -> (wrapped: Result<Self, Error>) where
        D: FnOnce(&str) -> Result<T, Error>,

        requires
            forall|text: &str| text@ == json@ ==> decode.requires((text,)),
        ensures
            exists|text: &str|
                text@ == json@ && #[trigger] decode.ensures((text,), Self::spec_decoded(wrapped)),
    {
        Self::from_json(json.as_str(), decode)
    }

    /// Encodes the inner value with `encode`.
    ///
    /// The encoder is applied to the inner value itself, once, and its
    /// result is returned as it is: the text is an encoding of the bare
    /// value, with no trace of the wrapper.
    pub fn to_json<E>(&self, encode: E) -> (text: Result<String, Error>) where
        E: FnOnce(&T) -> Result<String, Error>,

        requires
            encode.requires((&self@,)),
        ensures
            encode.ensures((&self@,), text),
    {
        encode(self.value())
    }
}

/// Encoding and then decoding a wrapper gives the same wrapper back, and the
/// encoded text is an encoding of the bare value.
///
/// `text` is what [`Tagged::to_json`] returned for the wrapper of `value`,
/// `json` holds the same characters, and `back` is what
/// [`Tagged::from_json`] returned for `json`. The codec is asked for one
/// thing: that, by itself, it decodes this text, which it made from `value`,
/// to `value` and to nothing else.
pub proof fn law_json_round_trip<T, Tag, E, D>(
    value: T,
    encode: E,
    decode: D,
    text: String,
    json: &str,
    back: Result<Tagged<T, Tag>, Error>,
) where E: FnOnce(&T) -> Result<String, Error>, D: FnOnce(&str) -> Result<T, Error>
    requires
        encode.ensures((&Tagged::<T, Tag>::new(value)@,), Ok(text)),
        json@ == text@,
        decode.ensures((json,), Tagged::<T, Tag>::spec_decoded(back)),
        forall|decoded: Result<T, Error>| #[trigger]
            decode.ensures((json,), decoded) ==> decoded == Ok::<T, Error>(value),
    ensures
        back == Ok::<Tagged<T, Tag>, Error>(Tagged::new(value)),
        encode.ensures((&value,), Ok(text)),
{
    Tagged::<T, Tag>::law_new_holds_value(value);
    let decoded = Tagged::<T, Tag>::spec_decoded(back);
    assert(decode.ensures((json,), decoded));
    assert(decoded == Ok::<T, Error>(value));
    match back {
        Ok(tagged) => {
            Tagged::<T, Tag>::law_determined_by_value(tagged, Tagged::new(value));
        },
        Err(_) => {},
    }
}

} // verus!
