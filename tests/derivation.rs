use qr_checkin::derive::{intermediate_token, qr_data, qr_data_url, QR_DATA_URL_PREFIX};
use qr_checkin::err::HandlerError;

#[test]
fn intermediate_token_is_found() {
    let page = b"<script>var cfg = {\"token\":   \"ab-12\", \"x\": \"y\"};</script>";
    assert_eq!(intermediate_token(200, page), Ok(String::from("ab-12")));
    let page = b"{\"token\":\"first\"} {\"token\":\"second\"}";
    assert_eq!(intermediate_token(200, page), Ok(String::from("first")));
}

#[test]
fn intermediate_token_errors() {
    assert_eq!(intermediate_token(500, b"\"token\": \"x\""), Err(HandlerError::BadStatusCode(500)));
    assert_eq!(intermediate_token(200, b"no token here"), Err(HandlerError::CannotFindToken));
    assert_eq!(intermediate_token(200, b"\"token\": \"\""), Err(HandlerError::CannotFindToken));
    assert_eq!(intermediate_token(200, b"\"token\": \"\xff\xfe\""), Err(HandlerError::CannotFindToken));
}

#[test]
fn data_url_appends_token() {
    let u = qr_data_url("abc");
    assert_eq!(u, format!("{}abc", QR_DATA_URL_PREFIX));
    assert!(u.ends_with("&token=abc"));
}

#[test]
fn qr_data_is_read() {
    assert_eq!(qr_data(200, b"{\"qr_data\": \"tok-123\", \"other\": 1}"), Ok(String::from("tok-123")));
}

#[test]
fn qr_data_errors() {
    assert_eq!(qr_data(404, b"{\"qr_data\": \"tok\"}"), Err(HandlerError::BadStatusCode(404)));
    assert_eq!(qr_data(200, b"{\"other\": \"tok\"}"), Err(HandlerError::MissingQrData));
    assert_eq!(qr_data(200, b"{\"qr_data\": 5}"), Err(HandlerError::MissingQrData));
    assert_eq!(qr_data(200, b"not json"), Err(HandlerError::MissingQrData));
}
