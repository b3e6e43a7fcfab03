use base64::Engine;
use vstd::prelude::*;

verus! {

/// The padded standard base64 text of a byte sequence.
pub uninterp spec fn base64_of(bytes: Seq<u8>) -> Seq<char>;

/// A character of the standard base64 alphabet, or the padding `=`.
pub open spec fn is_base64_char(c: char) -> bool {
    ('A' <= c && c <= 'Z') || ('a' <= c && c <= 'z') || ('0' <= c && c <= '9') || c == '+' || c
        == '/' || c == '='
}

/// Text made of base64 characters only.
pub open spec fn is_base64_text(s: Seq<char>) -> bool {
    forall|i: int| 0 <= i < s.len() ==> is_base64_char(#[trigger] s[i])
}

/// Relies on `base64::Engine::encode` with the `STANDARD` engine (standard
/// alphabet `A-Z a-z 0-9 + /`, `=` padding): four characters for each started group of three bytes.
/// It does not panic: that length fits in `usize` for any slice held in memory.
#[verifier::external_body]
fn base64_encode(data: &[u8]) -> (r: String)
    ensures
        r@ == base64_of(data@),
        r@.len() == 4 * ((data@.len() + 2) / 3),
        is_base64_text(r@),
{
    base64::engine::general_purpose::STANDARD.encode(data)
}

/// Relies on `base64::Engine::decode` with the `STANDARD` engine, which accepts
/// only canonical padded text: it gives back the bytes of which the text is the
/// encoding, and fails on any other text.
#[verifier::external_body]
fn base64_decode(text: &str) -> (r: Option<Vec<u8>>)
    ensures
        forall|b: Seq<u8>| base64_of(b) == text@ ==> (r is Some && r->0@ == b),
        r is Some ==> base64_of(r->0@) == text@,
{
    base64::engine::general_purpose::STANDARD.decode(text).ok()
}

/// The text-safe form of arbitrary bytes (whole files or embedded pictures).
pub fn encode_blob(data: &[u8]) -> (r: String)
    ensures
        r@ == base64_of(data@),
        r@.len() == 4 * ((data@.len() + 2) / 3),
        is_base64_text(r@),
{
    base64_encode(data)
}

/// Turns a text-safe blob back into its bytes; `None` if `text` is not the
/// text-safe form of any byte sequence. Decoding the encoding of any bytes
/// gives those bytes back.
pub fn decode_blob(text: &str) -> (r: Option<Vec<u8>>)
    ensures
        forall|b: Seq<u8>| #[trigger] base64_of(b) == text@ ==> (r is Some && r->0@ == b),
        r is Some ==> base64_of(r->0@) == text@,
{
    base64_decode(text)
}

/// Encodes picture bytes for display; never fails.
pub fn encode_picture(data: &[u8]) -> (r: Result<String, String>)
    ensures
        r matches Ok(s) && s@ == base64_of(data@) && s@.len() == 4 * ((data@.len() + 2) / 3)
            && is_base64_text(s@),
{
    Ok(base64_encode(data))
}

} // verus!
