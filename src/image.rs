//! Page images, which the service sends as base64 text.

use vstd::prelude::*;

verus! {

/// The bytes that `text` stands for in standard, padded base64, or `None`
/// where it is no such text.
pub uninterp spec fn base64_decoded(text: Seq<char>) -> Option<Seq<u8>>;

/// Relies on base64's `Engine::decode` with the `STANDARD` engine: the bytes
/// of a padded standard-alphabet text, or an error for any other text; which
/// depends on the text alone.
#[verifier::external_body]
fn decode_standard(text: &str) -> (r: Option<Vec<u8>>)
    ensures
        r is Some <==> base64_decoded(text@) is Some,
        r is Some ==> base64_decoded(text@) == Some(r->Some_0@),
{
    base64::Engine::decode(&base64::engine::general_purpose::STANDARD, text).ok()
}

/// Why an image could not be had.
#[derive(Clone, Copy, Debug, PartialEq, Eq, Structural)]
pub enum ImageError {
    /// The text is not standard, padded base64.
    NotBase64,
}

/// The bytes of an image sent as base64 text.
pub fn decode_image(text: &str) -> (r: Result<Vec<u8>, ImageError>)
    ensures
        r is Ok <==> base64_decoded(text@) is Some,
        r is Ok ==> base64_decoded(text@) == Some(r->Ok_0@),
        r is Err ==> r->Err_0 == ImageError::NotBase64,
{
    match decode_standard(text) {
        Some(b) => Ok(b),
        None => Err(ImageError::NotBase64),
    }
}

} // verus!
