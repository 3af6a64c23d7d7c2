//! Identifier generation and the encoded file-read path: a fresh opaque
//! identifier for each request, and the standard textual encoding of an
//! artifact's bytes for transports that prefer text over byte arrays.

use vstd::prelude::*;
use base64::Engine;

verus! {

/// The standard base64 encoding (with padding) of `b`, as
/// `base64::engine::general_purpose::STANDARD` computes it; a function of
/// the bytes alone.
pub uninterp spec fn base64_of(b: Seq<u8>) -> Seq<char>;

/// Relies on base64::engine::general_purpose::STANDARD.encode (through
/// base64::Engine::encode): the standard-alphabet, padded encoding of the
/// input bytes, a function of the bytes alone; empty input encodes to the
/// empty string.
#[verifier::external_body]
fn base64_standard_encode(bytes: &[u8]) -> (r: String)
    ensures
        r@ == base64_of(bytes@),
        bytes@.len() == 0 ==> r@.len() == 0,
{
    base64::engine::general_purpose::STANDARD.encode(bytes)
}

/// Encode an artifact's bytes as base64 text.
pub fn encode_audio_base64(bytes: &Vec<u8>) -> (r: String)
    ensures
        r@ == base64_of(bytes@),
        bytes@.len() == 0 ==> r@.len() == 0,
{
    base64_standard_encode(bytes.as_slice())
}

/// Relies on uuid::Uuid::new_v4 and its Display rendering: a fresh random
/// version-4 identifier in the hyphenated textual form, which is 36
/// characters. Nothing is assumed about which identifier comes back.
#[verifier::external_body]
fn generate_uuid_string() -> (r: String)
    ensures
        r@.len() == 36,
{
    uuid::Uuid::new_v4().to_string()
}

/// A fresh opaque identifier for one download request, generated before the
/// attempt begins so that a failed attempt never collides with another.
pub fn fresh_song_id() -> (r: String)
    ensures
        r@.len() == 36,
{
    generate_uuid_string()
}

} // verus!
