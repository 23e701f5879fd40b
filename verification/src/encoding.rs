//! Binary-to-text transformation of uploaded image bytes: the standard base64
//! form, produced and reversed by the `base64` crate. The transform is
//! deterministic and total, and decoding an encoding returns the original
//! bytes (the round-trip law, stated by `encode_then_decode`).

use vstd::prelude::*;

verus! {

/// The standard base64 text of a byte sequence, as the `base64` crate's
/// `STANDARD` engine produces it.
pub uninterp spec fn base64_text(bytes: Seq<u8>) -> Seq<char>;

/// Relies on `base64::engine::Engine::encode` with the `STANDARD` engine:
/// the output is the standard padded base64 text, a pure function of the
/// input bytes alone.
#[verifier::external_body]
fn base64_encode(bytes: &[u8]) -> (r: String)
    ensures
        r@ == base64_text(bytes@),
{
    base64::Engine::encode(&base64::engine::general_purpose::STANDARD, bytes)
}

/// Relies on `base64::engine::Engine::decode` with the `STANDARD` engine: on
/// text that is the standard encoding of some byte sequence, decoding
/// succeeds and returns exactly that sequence; on other inputs it fails.
#[verifier::external_body]
fn base64_decode(text: &str) -> (r: Result<Vec<u8>, String>)
    ensures
        forall|b: Seq<u8>| text@ == base64_text(b) ==> r is Ok && r->Ok_0@ == b,
{
    match base64::Engine::decode(&base64::engine::general_purpose::STANDARD, text) {
        Ok(v) => Ok(v),
        Err(e) => Err(e.to_string()),
    }
}

/// Encodes raw image bytes as text. Deterministic and total: it succeeds for
/// every byte sequence, the empty one included.
pub fn encode(bytes: &Vec<u8>) -> (r: String)
    ensures
        r@ == base64_text(bytes@),
{
    base64_encode(bytes.as_slice())
}

/// Decodes encoded text back to the raw bytes. On the encoding of a byte
/// sequence `b` it returns exactly `b`; on text that is no standard encoding
/// it reports the decoder's failure.
pub fn decode(text: &String) -> (r: Result<Vec<u8>, String>)
    ensures
        forall|b: Seq<u8>| text@ == base64_text(b) ==> r is Ok && r->Ok_0@ == b,
{
    base64_decode(text.as_str())
}

/// Round-trip law: for every byte sequence, decoding its encoding succeeds
/// and returns the sequence unchanged.
pub fn encode_then_decode(bytes: &Vec<u8>) -> (r: Result<Vec<u8>, String>)
    ensures
        r is Ok,
        r->Ok_0@ == bytes@,
{
    let text = encode(bytes);
    assert(text@ == base64_text(bytes@));
    decode(&text)
}

} // verus!
