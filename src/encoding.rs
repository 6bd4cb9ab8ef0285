//! Base64 text of byte buffers, as the services and the caller exchange audio.
use vstd::prelude::*;

verus! {

/// The padded standard-alphabet base64 text of `b`.
pub uninterp spec fn base64_of(b: Seq<u8>) -> Seq<char>;

#[verifier::external_type_specification]
#[verifier::external_body]
pub struct ExDecodeError(base64::DecodeError);

/// Relies on `Engine::encode` of base64's `STANDARD` engine: the padded
/// standard-alphabet text of the bytes, a function of the bytes alone.
#[verifier::external_body]
pub(crate) fn base64_encode(b: &[u8]) -> (r: String)
    ensures
        r@ == base64_of(b@),
{
    base64::Engine::encode(&base64::engine::general_purpose::STANDARD, b)
}

/// Relies on `Engine::decode` of base64's `STANDARD` engine, which is
/// configured to require canonical padding and to reject trailing bits: it
/// succeeds exactly on the texts that `encode` produces, and then returns
/// the bytes that were encoded.
#[verifier::external_body]
pub(crate) fn base64_decode(s: &str) -> (r: Result<Vec<u8>, base64::DecodeError>)
    ensures
        r is Ok <==> exists|b: Seq<u8>| #[trigger] base64_of(b) == s@,
        r matches Ok(v) ==> base64_of(v@) == s@,
        r matches Ok(v) ==> forall|b: Seq<u8>| #[trigger] base64_of(b) == s@ ==> v@ == b,
{
    base64::Engine::decode(&base64::engine::general_purpose::STANDARD, s)
}

} // verus!
