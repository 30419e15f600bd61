//! Inline sources for gallery previews.
use base64::Engine;
use vstd::prelude::*;

verus! {

/// Standard base64 (with padding) of `bytes`.
pub uninterp spec fn base64_of(bytes: Seq<u8>) -> Seq<char>;

/// Relies on `Engine::encode` of `base64::engine::general_purpose::STANDARD`:
/// padded standard base64. It panics only when the encoded length overflows
/// `usize`.
#[verifier::external_body]
fn base64_text(bytes: &[u8]) -> (r: String)
    requires
        bytes@.len() <= usize::MAX / 2,
    ensures
        r@ == base64_of(bytes@),
{
    base64::engine::general_purpose::STANDARD.encode(bytes)
}

/// A `data:` URL that embeds `data`, an image of the given format
/// (`"png"`, `"jpeg"`, ...), in a page.
pub fn to_src(data: &Vec<u8>, format: &str) -> (r: String)
    requires
        data@.len() <= usize::MAX / 2,
    ensures
        r@ == "data:image/"@ + format@ + ";base64,"@ + base64_of(data@),
{
    let mut src = String::from_str("data:image/");
    src.append(format);
    src.append(";base64,");
    let encoded = base64_text(data.as_slice());
    src.append(encoded.as_str());
    src
}

} // verus!
