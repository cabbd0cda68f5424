use qr_checkin::cache::{Cache, RefreshAction, Reply, TOKEN_TTL_MS};
use qr_checkin::err::HandlerError;
use qr_checkin::request::{Mode, Params, Rejection};

fn fresh_cache(now: u64, token: &str) -> Cache {
    let mut c = Cache::new(now);
    assert_eq!(c.begin_refresh(), RefreshAction::Hard);
    assert_eq!(c.finish_hard(now, Some(String::from(token))), RefreshAction::Ready);
    c
}

#[test]
fn new_cache_is_stale_and_empty() {
    let c = Cache::new(1000);
    assert!(c.needs_refresh(1000));
    assert!(c.needs_refresh(5000));
    assert!(!c.needs_refresh(999));
    assert_eq!(c.token(), "");
    assert_eq!(c.expires(), 1000);
}

#[test]
fn empty_cache_hard_refresh_then_text_and_image() {
    let mut c = Cache::new(0);
    assert!(c.needs_refresh(10));
    assert_eq!(c.begin_refresh(), RefreshAction::Hard);
    assert_eq!(c.finish_hard(10, Some(String::from("tok-123"))), RefreshAction::Ready);
    assert_eq!(c.expires(), 10 + TOKEN_TTL_MS);
    let text = c.respond(Params { mode: Mode::Text, size: 256 });
    assert_eq!(text.status(), 200);
    match text {
        Reply::Text(t) => assert_eq!(t, "tok-123"),
        other => panic!("unexpected reply {:?}", other),
    }
    let img = c.respond(Params { mode: Mode::Image, size: 128 });
    assert_eq!(img.status(), 200);
    let expected = qrcode_generator::to_png_to_vec("tok-123", qrcode_generator::QrCodeEcc::Medium, 128).unwrap();
    match img {
        Reply::Png(b) => {
            assert_eq!(&b[..8], &[0x89, b'P', b'N', b'G', 0x0d, 0x0a, 0x1a, 0x0a]);
            assert_eq!(b, expected);
        }
        other => panic!("unexpected reply {:?}", other),
    }
}

#[test]
fn text_requests_in_window_are_identical() {
    let mut c = fresh_cache(100, "abc");
    assert!(!c.needs_refresh(100));
    let a = c.respond(Params { mode: Mode::Text, size: 256 });
    assert!(!c.needs_refresh(100 + TOKEN_TTL_MS - 1));
    let b = c.respond(Params { mode: Mode::Text, size: 256 });
    match (a, b) {
        (Reply::Text(x), Reply::Text(y)) => {
            assert_eq!(x, y);
            assert_eq!(x, "abc");
        }
        _ => panic!("expected text replies"),
    }
}

#[test]
fn image_at_same_size_is_reused() {
    let mut c = fresh_cache(0, "tok-123");
    let a = c.artifact(200).unwrap();
    let b = c.artifact(200).unwrap();
    assert_eq!(a, b);
    let other = c.artifact(300).unwrap();
    assert_ne!(a, other);
}

#[test]
fn image_too_small_is_render_failure() {
    let mut c = fresh_cache(0, "tok-123");
    assert_eq!(c.artifact(1), Err(HandlerError::RenderFailed));
    let r = c.respond(Params { mode: Mode::Image, size: 1 });
    assert_eq!(r.status(), 500);
    assert!(matches!(r, Reply::InternalError));
}

#[test]
fn expiry_boundary_triggers_one_refresh() {
    let c = fresh_cache(1000, "t");
    let stale: Vec<bool> = (1000..1000 + TOKEN_TTL_MS).map(|t| c.needs_refresh(t)).collect();
    assert!(stale.iter().all(|s| !s));
    assert!(c.needs_refresh(1000 + TOKEN_TTL_MS));
}

#[test]
fn soft_refresh_success_keeps_session() {
    let mut c = fresh_cache(0, "old");
    c.artifact(100).unwrap();
    assert!(c.needs_refresh(TOKEN_TTL_MS));
    assert_eq!(c.begin_refresh(), RefreshAction::Soft);
    assert_eq!(c.finish_soft(20_000, Some(String::from("new"))), RefreshAction::Ready);
    assert_eq!(c.token(), "new");
    assert_eq!(c.expires(), 20_000 + TOKEN_TTL_MS);
}

#[test]
fn soft_failure_falls_back_to_hard() {
    let mut c = fresh_cache(0, "old");
    assert_eq!(c.begin_refresh(), RefreshAction::Soft);
    assert_eq!(c.finish_soft(20_000, None), RefreshAction::Hard);
    assert_eq!(c.token(), "");
    assert_eq!(c.expires(), TOKEN_TTL_MS);
    assert_eq!(c.finish_hard(20_000, Some(String::from("hard"))), RefreshAction::Ready);
    assert_eq!(c.token(), "hard");
    assert_eq!(c.expires(), 20_000 + TOKEN_TTL_MS);
}

#[test]
fn soft_empty_result_falls_back_to_hard() {
    let mut c = fresh_cache(0, "old");
    assert_eq!(c.begin_refresh(), RefreshAction::Soft);
    assert_eq!(c.finish_soft(20_000, Some(String::new())), RefreshAction::Hard);
    assert_eq!(c.expires(), TOKEN_TTL_MS);
}

#[test]
fn both_tiers_failing_keep_expiry() {
    let mut c = fresh_cache(0, "old");
    assert_eq!(c.begin_refresh(), RefreshAction::Soft);
    assert_eq!(c.finish_soft(20_000, None), RefreshAction::Hard);
    assert_eq!(c.finish_hard(20_000, None), RefreshAction::Failed);
    assert_eq!(c.expires(), TOKEN_TTL_MS);
    assert_eq!(c.token(), "");
    assert!(c.needs_refresh(20_001));
    assert_eq!(Reply::InternalError.status(), 500);
}

#[test]
fn hard_failure_on_empty_cache_retains_empty_token() {
    let mut c = Cache::new(5);
    assert_eq!(c.begin_refresh(), RefreshAction::Hard);
    assert_eq!(c.finish_hard(5, None), RefreshAction::Failed);
    assert_eq!(c.token(), "");
    assert_eq!(c.expires(), 5);
}

#[test]
fn expiry_saturates() {
    let mut c = Cache::new(0);
    c.begin_refresh();
    c.finish_hard(u64::MAX - 1, Some(String::from("x")));
    assert_eq!(c.expires(), u64::MAX);
}

#[test]
fn rejected_reply_status() {
    assert_eq!(Reply::Rejected(Rejection::Unauthorized).status(), 401);
    assert_eq!(Reply::Rejected(Rejection::NotFound).status(), 404);
}
