//! Encodings at the edge of the library: base64 text and UTF-8.

use vstd::prelude::*;
use vstd::utf8::{decode_utf8, valid_utf8};

verus! {

/// Names what `base64::Engine::encode` of the standard engine returns for
/// bytes: their base64 text.
pub uninterp spec fn base64_text(bytes: Seq<u8>) -> Seq<char>;

/// Names what `base64::Engine::decode` of the standard engine returns for a
/// text: the bytes that it stands for; `None` where it is no base64 text.
pub uninterp spec fn base64_bytes(text: Seq<char>) -> Option<Seq<u8>>;

/// The base64 text of bytes, by `base64::Engine::encode` of the standard
/// engine. That call panics only where the length of the text would not fit
/// in `usize`, which no slice in memory reaches.
#[verifier::external_body]
pub(crate) fn base64_encode(bytes: &[u8]) -> (text: String)
    ensures
        text@ == base64_text(bytes@),
{
    base64::Engine::encode(&base64::prelude::BASE64_STANDARD, bytes)
}

/// The bytes of a base64 text, by `base64::Engine::decode` of the standard
/// engine.
#[verifier::external_body]
pub(crate) fn base64_decode(text: &str) -> (r: Option<Vec<u8>>)
    ensures
        match r {
            Some(bytes) => base64_bytes(text@) == Some(bytes@),
            None => base64_bytes(text@) is None,
        },
{
    base64::Engine::decode(&base64::prelude::BASE64_STANDARD, text).ok()
}

/// The text that bytes state in UTF-8, by `String::from_utf8`; `None` where
/// the bytes are no UTF-8.
#[verifier::external_body]
pub(crate) fn text_of_bytes(bytes: Vec<u8>) -> (r: Option<String>)
    ensures
        match r {
            Some(text) => valid_utf8(bytes@) && text@ == decode_utf8(bytes@),
            None => !valid_utf8(bytes@),
        },
{
    String::from_utf8(bytes).ok()
}

} // verus!
