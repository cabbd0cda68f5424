//! The calls into outside crates that the library relies on, each behind a
//! small trusted item whose contract names or states what it returns.

use vstd::prelude::*;

verus! {

/// The decoded `(name, value)` pairs of a form-urlencoded query string, in order.
pub uninterp spec fn form_pairs_of(query: Seq<char>) -> Seq<(Seq<char>, Seq<char>)>;

/// The text of the first capture group of the first match of a byte regex, if
/// the pattern compiles and matches.
pub uninterp spec fn first_group_of(pattern: Seq<char>, haystack: Seq<u8>) -> Option<Seq<u8>>;

/// The text that a byte sequence holds, if it is valid UTF-8.
pub uninterp spec fn utf8_text_of(bytes: Seq<u8>) -> Option<Seq<char>>;

/// The string held under `key` in a JSON object document, if the document
/// parses, is an object, and holds a string there.
pub uninterp spec fn json_str_field_of(doc: Seq<u8>, key: Seq<char>) -> Option<Seq<char>>;

/// The PNG image of a QR code of `text` at medium error correction, `size`
/// pixels square, if one can be drawn.
pub uninterp spec fn qr_png_of(text: Seq<char>, size: nat) -> Option<Seq<u8>>;

/// The view of a list of string pairs as a sequence of character-sequence pairs.
pub open spec fn pairs_view(v: Seq<(String, String)>) -> Seq<(Seq<char>, Seq<char>)> {
    v.map_values(|p: (String, String)| (p.0@, p.1@))
}

#[verifier::external_type_specification]
#[verifier::external_body]
pub struct ExQRCodeError(qrcode_generator::QRCodeError);

/// Relies on url::form_urlencoded::parse: the pairs of a query string, decoded,
/// in the order in which they stand.
#[verifier::external_body]
pub(crate) fn query_pairs(query: &str) -> (r: Vec<(String, String)>)
    ensures
        pairs_view(r@) == form_pairs_of(query@),
{
    url::form_urlencoded::parse(query.as_bytes()).into_owned().collect()
}

/// Relies on regex::bytes::Regex (`new`, `captures`, `Captures::get`): the
/// first capture group of the leftmost match, copied out.
#[verifier::external_body]
pub(crate) fn first_group(pattern: &str, haystack: &[u8]) -> (r: Option<Vec<u8>>)
    ensures
        match r {
            Some(g) => first_group_of(pattern@, haystack@) == Some(g@),
            None => first_group_of(pattern@, haystack@).is_none(),
        },
{
    let re = regex::bytes::Regex::new(pattern).ok()?;
    re.captures(haystack)?.get(1).map(|m| m.as_bytes().to_vec())
}

/// Relies on String::from_utf8: the text of a byte buffer that is valid UTF-8.
#[verifier::external_body]
pub(crate) fn utf8_text(bytes: Vec<u8>) -> (r: Option<String>)
    ensures
        match r {
            Some(s) => utf8_text_of(bytes@) == Some(s@),
            None => utf8_text_of(bytes@).is_none(),
        },
{
    String::from_utf8(bytes).ok()
}

/// Relies on serde_json::from_slice into a `Value`, then `Value::get` and
/// `Value::as_str`: a string field of a JSON object.
#[verifier::external_body]
pub(crate) fn json_str_field(doc: &[u8], key: &str) -> (r: Option<String>)
    ensures
        match r {
            Some(s) => json_str_field_of(doc@, key@) == Some(s@),
            None => json_str_field_of(doc@, key@).is_none(),
        },
{
    let v: serde_json::Value = serde_json::from_slice(doc).ok()?;
    v.get(key)?.as_str().map(String::from)
}

/// Relies on qrcode_generator::to_png_to_vec with `QrCodeEcc::Medium`: the PNG
/// bytes of the code, or the crate's error (data too long, size too small).
#[verifier::external_body]
pub(crate) fn render_png(text: &str, size: u16) -> (r: Result<Vec<u8>, qrcode_generator::QRCodeError>)
    ensures
        match r {
            Ok(b) => qr_png_of(text@, size as nat) == Some(b@),
            Err(_) => qr_png_of(text@, size as nat).is_none(),
        },
{
    qrcode_generator::to_png_to_vec(text, qrcode_generator::QrCodeEcc::Medium, size as usize)
}

} // verus!
