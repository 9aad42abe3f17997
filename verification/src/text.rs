//! Text operations of the standard library that the commands rely on.
//!
//! The two functions here are not verified: each hands its argument to one
//! function of the standard library, and its contract is taken on trust.

use vstd::prelude::*;
use vstd::utf8::{decode_utf8, valid_utf8};

verus! {

/// The text that lossy UTF-8 decoding makes of `bytes`.
pub uninterp spec fn lossy_text(bytes: Seq<u8>) -> Seq<char>;

/// `text` without its leading and trailing white space.
pub uninterp spec fn trimmed(text: Seq<char>) -> Seq<char>;

/// Decodes `bytes` as UTF-8, replacing whatever is not valid.
///
/// Calls `String::from_utf8_lossy`. Taken on trust: the result depends on
/// the bytes alone, and bytes that are valid UTF-8 decode to the text they
/// encode.
#[verifier::external_body]
pub(crate) fn decode_lossy(bytes: &[u8]) -> (text: String)
    ensures
        text@ == lossy_text(bytes@),
        valid_utf8(bytes@) ==> text@ == decode_utf8(bytes@),
{
    String::from_utf8_lossy(bytes).into_owned()
}

/// Strips leading and trailing white space from `text`.
///
/// Calls `str::trim`. Taken on trust: the result depends on the text alone.
#[verifier::external_body]
pub(crate) fn trim<'a>(text: &'a str) -> (stripped: &'a str)
    ensures
        stripped@ == trimmed(text@),
{
    text.trim()
}

} // verus!
