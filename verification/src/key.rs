//! Keys: text, handed over as bytes.
//!
//! A key is valid when its bytes are well-formed UTF-8. Two valid keys name
//! the same entry exactly when their bytes are the same.

use vstd::prelude::*;
use vstd::string::StringSliceAdditionalSpecFns;
use vstd::utf8::{decode_utf8, decode_utf8_encode_utf8, encode_utf8_decode_utf8, valid_utf8};

verus! {

/// The error of `core::str::from_utf8`. Nothing is read from it.
#[verifier::external_type_specification]
#[verifier::external_body]
pub struct ExUtf8Error(core::str::Utf8Error);

/// `core::str::from_utf8` is taken at its documented word: it succeeds exactly
/// on well-formed UTF-8, and the string slice it then returns consists of the
/// very bytes it was given.
pub assume_specification[ core::str::from_utf8 ](v: &[u8]) -> (r: Result<
    &str,
    core::str::Utf8Error,
>)
    ensures
        r is Ok <==> valid_utf8(v@),
        r is Ok ==> r->Ok_0.spec_bytes() == v@,
;

/// The text that a key's bytes spell, or `None` where they are not valid text.
pub open spec fn key_text(bytes: Seq<u8>) -> Option<Seq<char>> {
    if valid_utf8(bytes) {
        Some(decode_utf8(bytes))
    } else {
        None
    }
}

/// Reads `bytes` as a key: the text they spell, or `None` where they are not
/// valid text.
pub fn key_of(bytes: &[u8]) -> (text: Option<&str>)
    ensures
        match text {
            Some(t) => key_text(bytes@) == Some(t@),
            None => key_text(bytes@) is None,
        },
{
    match core::str::from_utf8(bytes) {
        Ok(t) => {
            proof {
                encode_utf8_decode_utf8(t@);
            }
            Some(t)
        },
        Err(_) => None,
    }
}

/// Valid keys that spell the same text are the same bytes: no two distinct
/// valid keys share an entry.
pub proof fn lemma_key_text_injective(a: Seq<u8>, b: Seq<u8>)
    requires
        key_text(a) is Some,
        key_text(a) == key_text(b),
    ensures
        a == b,
{
    decode_utf8_encode_utf8(a);
    decode_utf8_encode_utf8(b);
}

} // verus!
