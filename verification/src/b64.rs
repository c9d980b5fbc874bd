use vstd::prelude::*;

verus! {

/// The character sequence that standard-alphabet base64 encoding (with
/// padding) produces for a byte sequence. The exact digits take pages to
/// state, and they depend on the input bytes alone, so the result carries
/// a name instead.
pub uninterp spec fn b64_of(bytes: Seq<u8>) -> Seq<char>;

/// Relies on base64's `STANDARD` engine `encode`: the standard alphabet with
/// padding, four output characters for every started group of three input
/// bytes, and a result that is a function of the input bytes alone.
#[verifier::external_body]
pub(crate) fn b64_encode(bytes: &Vec<u8>) -> (r: String)
    ensures
        r@ == b64_of(bytes@),
        r@.len() == 4 * ((bytes@.len() + 2) / 3),
{
    base64::Engine::encode(&base64::engine::general_purpose::STANDARD, bytes)
}

/// Relies on base64's `STANDARD` engine `decode`: the inverse of `encode`,
/// so a string equal to the encoding of some byte sequence decodes to
/// exactly those bytes.
#[verifier::external_body]
pub(crate) fn b64_decode(s: &str) -> (r: Option<Vec<u8>>)
    ensures
        forall|bytes: Seq<u8>| s@ == #[trigger] b64_of(bytes)
            ==> r is Some && r.unwrap()@ == bytes,
{
    match base64::Engine::decode(&base64::engine::general_purpose::STANDARD, s) {
        Ok(v) => Some(v),
        Err(_) => None,
    }
}

} // verus!
