//! Properties of the request checks and of the cache that hold of every
//! input, stated over the models that the functions' contracts use.

use vstd::prelude::*;

use crate::cache::{
    after_hard, after_soft, artifact_step, began, expiry_after, needs_refresh, refreshed, renders,
    CacheView, RefreshAction, TOKEN_TTL_MS,
};
use crate::request::{
    all_digits, digits_value, last_value, request_outcome, size_of_text, Mode, Rejection,
};

verus! {

/// A request processed under the lock at time `now`: it refreshes first when
/// the token is stale, with `soft` and `hard` as what the two tiers would
/// return. The count is the number of refreshes started (0 or 1).
pub open spec fn request_step(
    v: CacheView,
    now: u64,
    soft: Option<Seq<char>>,
    hard: Option<Seq<char>>,
) -> (CacheView, nat) {
    if needs_refresh(v, now) {
        (refreshed(v, now, soft, hard).0, 1)
    } else {
        (v, 0)
    }
}

/// Requests at `times`, served one after another, as the lock orders them:
/// the final state and the number of refreshes started.
pub open spec fn run_requests(
    v: CacheView,
    times: Seq<u64>,
    soft: Option<Seq<char>>,
    hard: Option<Seq<char>>,
) -> (CacheView, nat)
    decreases times.len(),
{
    if times.len() == 0 {
        (v, 0)
    } else {
        let first = request_step(v, times[0], soft, hard);
        let rest = run_requests(first.0, times.drop_first(), soft, hard);
        (rest.0, first.1 + rest.1)
    }
}

/// A Text request at `now`: the token it is answered with, if the refresh
/// that it may need succeeds.
pub open spec fn text_request(
    v: CacheView,
    now: u64,
    soft: Option<Seq<char>>,
    hard: Option<Seq<char>>,
) -> (CacheView, Option<Seq<char>>) {
    if needs_refresh(v, now) {
        let r = refreshed(v, now, soft, hard);
        (r.0, if r.1 { Some(r.0.token) } else { None })
    } else {
        (v, Some(v.token))
    }
}

/// A request without the configured API key is answered 401, before any
/// cache access: the outcome is decided from the request alone.
pub proof fn lemma_bad_key_unauthorized(
    presented: Option<Seq<char>>,
    configured: Seq<char>,
    pairs: Seq<(Seq<char>, Seq<char>)>,
)
    requires
        presented != Some(configured),
    ensures
        request_outcome(true, presented, configured, pairs) == Err::<crate::request::Params, Rejection>(Rejection::Unauthorized),
        Rejection::Unauthorized.spec_status() == 401,
{
}

/// Every request whose method is not GET is answered 404, whatever else it holds.
pub proof fn lemma_non_get_not_found(
    presented: Option<Seq<char>>,
    configured: Seq<char>,
    pairs: Seq<(Seq<char>, Seq<char>)>,
)
    ensures
        request_outcome(false, presented, configured, pairs) == Err::<crate::request::Params, Rejection>(Rejection::NotFound),
        Rejection::NotFound.spec_status() == 404,
{
}

/// An authorised GET whose `type` is neither `png` nor `txt` is answered 400.
pub proof fn lemma_unknown_type_bad_request(
    configured: Seq<char>,
    pairs: Seq<(Seq<char>, Seq<char>)>,
    t: Seq<char>,
)
    requires
        last_value(pairs, "type"@) == Some(t),
        t != "png"@,
        t != "txt"@,
    ensures
        request_outcome(true, Some(configured), configured, pairs) == Err::<crate::request::Params, Rejection>(Rejection::BadRequest),
        Rejection::BadRequest.spec_status() == 400,
{
}

/// An authorised GET for a PNG whose `size` is not a number, or not from 1 to
/// 65535, is answered 400.
pub proof fn lemma_bad_size_bad_request(
    configured: Seq<char>,
    pairs: Seq<(Seq<char>, Seq<char>)>,
    s: Seq<char>,
)
    requires
        last_value(pairs, "type"@) == Some("png"@),
        last_value(pairs, "size"@) == Some(s),
        s.len() == 0 || !all_digits(s) || digits_value(s) == 0 || digits_value(s) > u16::MAX,
    ensures
        size_of_text(s).is_none(),
        request_outcome(true, Some(configured), configured, pairs) == Err::<crate::request::Params, Rejection>(Rejection::BadRequest),
{
    reveal_strlit("png");
    reveal_strlit("txt");
    assert("png"@[0] != "txt"@[0]);
}

/// Two Text requests in the same validity window are answered with the same
/// token text.
pub proof fn lemma_text_idempotent(
    v: CacheView,
    t1: u64,
    t2: u64,
    soft1: Option<Seq<char>>,
    hard1: Option<Seq<char>>,
    soft2: Option<Seq<char>>,
    hard2: Option<Seq<char>>,
)
    requires
        text_request(v, t1, soft1, hard1).1.is_some(),
        t1 <= t2,
        t2 < text_request(v, t1, soft1, hard1).0.expires,
    ensures
        text_request(text_request(v, t1, soft1, hard1).0, t2, soft2, hard2) == (
            text_request(v, t1, soft1, hard1).0,
            text_request(v, t1, soft1, hard1).1,
        ),
{
}

/// Two Image requests at one size, with no refresh between them, give the same
/// bytes, and the renderer runs at most once (never when the size was cached).
pub proof fn lemma_artifact_reused(v: CacheView, size: u16)
    requires
        artifact_step(v, size).1.is_some(),
    ensures
        artifact_step(artifact_step(v, size).0, size) == artifact_step(v, size),
        renders(artifact_step(v, size).0, size) == 0,
        renders(v, size) + renders(artifact_step(v, size).0, size) <= 1,
{
}

proof fn lemma_fresh_run(w: CacheView, times: Seq<u64>, soft: Option<Seq<char>>, hard: Option<Seq<char>>)
    requires
        forall|i: int| 0 <= i < times.len() ==> #[trigger] times[i] < w.expires,
    ensures
        run_requests(w, times, soft, hard) == (w, 0nat),
    decreases times.len(),
{
    if times.len() > 0 {
        assert(times[0] < w.expires);
        let rest = times.drop_first();
        assert forall|i: int| 0 <= i < rest.len() implies #[trigger] rest[i] < w.expires by {
            assert(rest[i] == times[i + 1]);
        }
        lemma_fresh_run(w, rest, soft, hard);
    }
}

/// Once the token is stale, requests that queue behind the lock within the
/// new validity window cause exactly one refresh, provided it succeeds.
pub proof fn lemma_single_refresh(v: CacheView, times: Seq<u64>, soft: Option<Seq<char>>, hard: Option<Seq<char>>)
    requires
        times.len() >= 1,
        needs_refresh(v, times[0]),
        refreshed(v, times[0], soft, hard).1,
        forall|i: int| 0 <= i < times.len() ==> times[0] <= #[trigger] times[i] < expiry_after(times[0]),
    ensures
        run_requests(v, times, soft, hard).1 == 1,
        run_requests(v, times, soft, hard).0 == refreshed(v, times[0], soft, hard).0,
{
    let w = refreshed(v, times[0], soft, hard).0;
    assert(w.expires == expiry_after(times[0]));
    let rest = times.drop_first();
    assert forall|i: int| 0 <= i < rest.len() implies #[trigger] rest[i] < w.expires by {
        assert(rest[i] == times[i + 1]);
    }
    lemma_fresh_run(w, rest, soft, hard);
}

/// When the soft tier fails (or is skipped) and the hard tier succeeds, the
/// token is the hard tier's and the expiry is advanced to `now` plus the TTL.
pub proof fn lemma_fallback_to_hard(v: CacheView, now: u64, soft: Option<Seq<char>>, h: Seq<char>)
    requires
        v.token.len() > 0 ==> after_soft(began(v).0, now, soft).1 == RefreshAction::Hard,
    ensures
        refreshed(v, now, soft, Some(h)).1,
        refreshed(v, now, soft, Some(h)).0.token == h,
        refreshed(v, now, soft, Some(h)).0.expires == expiry_after(now),
        now as int + TOKEN_TTL_MS as int <= u64::MAX as int ==> refreshed(v, now, soft, Some(h)).0.expires == now + TOKEN_TTL_MS,
{
}

/// When both tiers fail, the refresh fails, the expiry is not advanced, and
/// the token is empty: the prior token when it was already empty.
pub proof fn lemma_both_fail(v: CacheView, now: u64, soft: Option<Seq<char>>)
    requires
        v.token.len() > 0 ==> after_soft(began(v).0, now, soft).1 == RefreshAction::Hard,
    ensures
        !refreshed(v, now, soft, None).1,
        refreshed(v, now, soft, None).0.expires == v.expires,
        refreshed(v, now, soft, None).0.token.len() == 0,
        v.token.len() == 0 ==> refreshed(v, now, soft, None).0.token == v.token,
        refreshed(v, now, soft, None).0.artifacts.is_empty(),
{
    let e: Seq<char> = Seq::empty();
    if v.token.len() == 0 {
        assert(v.token =~= e);
    }
}

} // verus!
