//! Base64, in which a program's bytes travel inside a `run` request.
//!
//! Decoding is left to the `base64` crate; the items here are the boundary
//! to it, and their contracts are taken on trust.

use vstd::prelude::*;

verus! {

/// The decoder's own error.
#[verifier::external_type_specification]
#[verifier::external_body]
pub struct ExDecodeError(base64::DecodeError);

/// The bytes that `base64::decode` reads from `text` in the standard
/// alphabet with padding; `None` where it reports an error.
pub uninterp spec fn base64_decoded(text: Seq<char>) -> Option<Seq<u8>>;

/// Calls `base64::decode`.
///
/// Trusted: the call succeeds exactly where [`base64_decoded`] is `Some`, and
/// the bytes handed back are the ones it names. The decoder panics only where
/// its estimate of the output length overflows; a string in memory is at most
/// `isize::MAX` bytes long, and the estimate is three quarters of that.
#[verifier::external_body]
pub(crate) fn decode(text: &str) -> (r: Result<Vec<u8>, base64::DecodeError>)
    ensures
        r is Ok <==> base64_decoded(text@) is Some,
        r matches Ok(bytes) ==> bytes@ == base64_decoded(text@).unwrap(),
{
    base64::decode(text)
}

/// Calls `to_string` on the decoder's error, which writes what its `Display`
/// impl writes. Nothing is claimed of the text.
#[verifier::external_body]
pub(crate) fn decode_error_text(error: &base64::DecodeError) -> (text: String) {
    error.to_string()
}

/// The text that `std`'s `Debug` formatting writes for a string: the string
/// in double quotes, with escapes where `std` puts them.
pub uninterp spec fn debug_literal(text: Seq<char>) -> Seq<char>;

/// Formats a string with `{:?}`.
///
/// Trusted: the text handed back is the one that [`debug_literal`] names.
#[verifier::external_body]
pub(crate) fn debug_quoted(text: &str) -> (quoted: String)
    ensures
        quoted@ == debug_literal(text@),
{
    format!("{:?}", text)
}

} // verus!
