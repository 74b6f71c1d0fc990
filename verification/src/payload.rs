//! Byte payloads of replies.
//!
//! A `bytes::Bytes` is opaque here: the library fills one from a text and
//! hands it on. What it holds is known by the name `payload_bytes`.

use vstd::prelude::*;
use vstd::utf8::encode_utf8;

verus! {

/// `bytes::Bytes`, declared so that it can stand in fields and signatures.
/// Nothing inside a value is seen.
#[verifier::external_type_specification]
#[verifier::external_body]
pub struct ExBytes(bytes::Bytes);

/// The bytes that a payload holds, in order.
pub uninterp spec fn payload_bytes(payload: bytes::Bytes) -> Seq<u8>;

/// `Bytes::from` on a `String`: the buffer of the text becomes the payload,
/// which so holds the UTF-8 bytes of the text.
#[verifier::external_body]
pub(crate) fn text_payload(text: String) -> (payload: bytes::Bytes)
    ensures
        payload_bytes(payload) == encode_utf8(text@),
{
    bytes::Bytes::from(text)
}

} // verus!
