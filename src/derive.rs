//! Deriving a token from the upstream service's two responses: the check-in
//! page, which holds an intermediate token, and the data document, which
//! holds the final value.

use vstd::prelude::*;
use vstd::string::StringExecFns;

use crate::err::HandlerError;
use crate::outside::{first_group, first_group_of, json_str_field, json_str_field_of, utf8_text, utf8_text_of};

verus! {

/// The page that holds the intermediate token.
pub const CHECK_IN_URL: &'static str = "https://accounts.kakao.com/qr_check_in";

/// The data endpoint; the intermediate token is appended to it.
pub const QR_DATA_URL_PREFIX: &'static str = "https://accounts.kakao.com/qr_check_in/request_qr_data.json?lang=ko&os=ios&webview_v=2&is_under_age=false&token=";

/// Where the intermediate token stands in the check-in page.
pub const TOKEN_PATTERN: &'static str = "\"token\":\\s*\"(.+?)\"";

/// The field of the data document that holds the final token.
pub const QR_DATA_FIELD: &'static str = "qr_data";

pub const STATUS_OK: u16 = 200;

/// The intermediate token in a check-in page answered with `status`.
pub open spec fn token_from_page(status: u16, body: Seq<u8>) -> Result<Seq<char>, HandlerError> {
    if status != STATUS_OK {
        Err(HandlerError::BadStatusCode(status))
    } else {
        match first_group_of(TOKEN_PATTERN@, body) {
            None => Err(HandlerError::CannotFindToken),
            Some(g) => match utf8_text_of(g) {
                None => Err(HandlerError::CannotFindToken),
                Some(t) => Ok(t),
            },
        }
    }
}

/// The final token in a data document answered with `status`.
pub open spec fn token_from_document(status: u16, body: Seq<u8>) -> Result<Seq<char>, HandlerError> {
    if status != STATUS_OK {
        Err(HandlerError::BadStatusCode(status))
    } else {
        match json_str_field_of(body, QR_DATA_FIELD@) {
            None => Err(HandlerError::MissingQrData),
            Some(t) => Ok(t),
        }
    }
}

pub open spec fn result_view(r: Result<String, HandlerError>) -> Result<Seq<char>, HandlerError> {
    match r {
        Ok(s) => Ok(s@),
        Err(e) => Err(e),
    }
}

/// Extracts the intermediate token from the check-in page.
pub fn intermediate_token(status: u16, body: &[u8]) -> (r: Result<String, HandlerError>)
    ensures
        result_view(r) == token_from_page(status, body@),
{
    if status != STATUS_OK {
        return Err(HandlerError::BadStatusCode(status));
    }
    match first_group(TOKEN_PATTERN, body) {
        None => Err(HandlerError::CannotFindToken),
        Some(g) => match utf8_text(g) {
            None => Err(HandlerError::CannotFindToken),
            Some(t) => Ok(t),
        },
    }
}

/// The address of the data document for an intermediate token.
pub fn qr_data_url(token: &str) -> (r: String)
    ensures
        r@ == QR_DATA_URL_PREFIX@ + token@,
{
    let mut url = String::from_str(QR_DATA_URL_PREFIX);
    url.append(token);
    url
}

/// Extracts the final token from the data document.
pub fn qr_data(status: u16, body: &[u8]) -> (r: Result<String, HandlerError>)
    ensures
        result_view(r) == token_from_document(status, body@),
{
    if status != STATUS_OK {
        return Err(HandlerError::BadStatusCode(status));
    }
    match json_str_field(body, QR_DATA_FIELD) {
        None => Err(HandlerError::MissingQrData),
        Some(t) => Ok(t),
    }
}

} // verus!
