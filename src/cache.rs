//! The token cache: the current token, its expiry, and the images rendered
//! from it, with the refresh steps that keep them current.

use std::collections::HashMap;
use vstd::prelude::*;

use crate::err::HandlerError;
use crate::outside::{qr_png_of, render_png};
use crate::request::{Mode, Params, Rejection};

verus! {

broadcast use vstd::std_specs::hash::group_hash_axioms;

/// How long a token stays valid after a refresh, in milliseconds.
pub const TOKEN_TTL_MS: u64 = 14_000;

/// The abstract state of a [`Cache`].
pub struct CacheView {
    pub token: Seq<char>,
    pub expires: u64,
    pub artifacts: Map<u16, Seq<u8>>,
}

/// The next thing a refresh in progress needs.
#[derive(Clone, Copy, Debug, PartialEq, Eq, Structural)]
pub enum RefreshAction {
    /// Derive a token with the session already held.
    Soft,
    /// Log in anew, then derive a token.
    Hard,
    /// The token is fresh.
    Ready,
    /// The refresh failed; the expiry was not advanced.
    Failed,
}

/// The expiry set by a refresh that completes at `now` (saturating at the
/// largest timestamp).
pub open spec fn expiry_after(now: u64) -> u64 {
    if now as int + TOKEN_TTL_MS as int > u64::MAX as int {
        u64::MAX
    } else {
        (now + TOKEN_TTL_MS) as u64
    }
}

pub open spec fn needs_refresh(v: CacheView, now: u64) -> bool {
    now >= v.expires
}

/// Starting a refresh: the images are dropped; a soft refresh is tried first
/// when a token is held.
pub open spec fn began(v: CacheView) -> (CacheView, RefreshAction) {
    (
        CacheView { token: v.token, expires: v.expires, artifacts: Map::empty() },
        if v.token.len() > 0 { RefreshAction::Soft } else { RefreshAction::Hard },
    )
}

/// The outcome of a soft refresh: a non-empty token completes the refresh;
/// otherwise the token is emptied and a hard refresh follows.
pub open spec fn after_soft(v: CacheView, now: u64, derived: Option<Seq<char>>) -> (CacheView, RefreshAction) {
    let t = match derived {
        Some(t) => t,
        None => Seq::empty(),
    };
    if t.len() > 0 {
        (CacheView { token: t, expires: expiry_after(now), artifacts: Map::empty() }, RefreshAction::Ready)
    } else {
        (CacheView { token: Seq::empty(), expires: v.expires, artifacts: Map::empty() }, RefreshAction::Hard)
    }
}

/// The outcome of a hard refresh: success sets the token and the expiry;
/// failure changes nothing.
pub open spec fn after_hard(v: CacheView, now: u64, derived: Option<Seq<char>>) -> (CacheView, RefreshAction) {
    match derived {
        Some(t) => (CacheView { token: t, expires: expiry_after(now), artifacts: Map::empty() }, RefreshAction::Ready),
        None => (v, RefreshAction::Failed),
    }
}

/// A whole refresh at `now`, given what the soft and the hard tier would
/// return; the flag says whether it succeeded.
pub open spec fn refreshed(
    v: CacheView,
    now: u64,
    soft: Option<Seq<char>>,
    hard: Option<Seq<char>>,
) -> (CacheView, bool) {
    let b = began(v);
    if b.1 == RefreshAction::Soft {
        let s = after_soft(b.0, now, soft);
        if s.1 == RefreshAction::Ready {
            (s.0, true)
        } else {
            let h = after_hard(s.0, now, hard);
            (h.0, h.1 == RefreshAction::Ready)
        }
    } else {
        let h = after_hard(b.0, now, hard);
        (h.0, h.1 == RefreshAction::Ready)
    }
}

/// Looking up the image of the current token at `size`: a cached one is
/// reused, else one is rendered and kept.
pub open spec fn artifact_step(v: CacheView, size: u16) -> (CacheView, Option<Seq<u8>>) {
    if v.artifacts.contains_key(size) {
        (v, Some(v.artifacts[size]))
    } else {
        match qr_png_of(v.token, size as nat) {
            Some(b) => (CacheView { token: v.token, expires: v.expires, artifacts: v.artifacts.insert(size, b) }, Some(b)),
            None => (v, None),
        }
    }
}

/// How many times the renderer runs in an [`artifact_step`].
pub open spec fn renders(v: CacheView, size: u16) -> nat {
    if v.artifacts.contains_key(size) { 0 } else { 1 }
}

/// Every cached image is the rendering of the current token at its size.
pub open spec fn artifacts_current(v: CacheView) -> bool {
    forall|k: u16| #[trigger] v.artifacts.contains_key(k) ==> qr_png_of(v.token, k as nat) == Some(v.artifacts[k])
}

/// The answer to a request.
#[derive(Debug)]
pub enum Reply {
    /// The token as plain text.
    Text(String),
    /// The PNG image of the token.
    Png(Vec<u8>),
    /// Turned away before the cache was touched.
    Rejected(Rejection),
    /// The refresh or the rendering failed.
    InternalError,
}

impl Reply {
    pub open spec fn spec_status(&self) -> u16 {
        match self {
            Reply::Text(_) => 200,
            Reply::Png(_) => 200,
            Reply::Rejected(j) => j.spec_status(),
            Reply::InternalError => 500,
        }
    }

    /// The HTTP status code of the reply.
    pub fn status(&self) -> (r: u16)
        ensures
            r == self.spec_status(),
    {
        match self {
            Reply::Text(_) => 200,
            Reply::Png(_) => 200,
            Reply::Rejected(j) => j.status(),
            Reply::InternalError => 500,
        }
    }
}

/// The token, its expiry and the images rendered from it. One value of it is
/// shared by all requests, behind a lock that is held across a refresh.
pub struct Cache {
    token: String,
    expires: u64,
    artifacts: HashMap<u16, Vec<u8>>,
}

impl View for Cache {
    type V = CacheView;

    closed spec fn view(&self) -> CacheView {
        CacheView {
            token: self.token@,
            expires: self.expires,
            artifacts: self.artifacts@.map_values(|b: Vec<u8>| b@),
        }
    }
}

impl Cache {
    /// Well-formed: every cached image is that of the current token.
    pub open spec fn wf(&self) -> bool {
        artifacts_current(self@)
    }

    /// An empty cache that is stale from `now` on.
    pub fn new(now: u64) -> (r: Cache)
        ensures
            r@.token.len() == 0,
            r@.expires == now,
            r@.artifacts == Map::<u16, Seq<u8>>::empty(),
            r.wf(),
    {
        let c = Cache { token: String::new(), expires: now, artifacts: HashMap::new() };
        assert(c@.artifacts =~= Map::<u16, Seq<u8>>::empty());
        c
    }

    /// Whether a request at `now` has to refresh the token first.
    pub fn needs_refresh(&self, now: u64) -> (r: bool)
        ensures
            r == needs_refresh(self@, now),
    {
        now >= self.expires
    }

    /// The current token.
    pub fn token(&self) -> (r: String)
        ensures
            r@ == self@.token,
    {
        self.token.clone()
    }

    /// The current expiry.
    pub fn expires(&self) -> (r: u64)
        ensures
            r == self@.expires,
    {
        self.expires
    }

    fn expiry_after(now: u64) -> (r: u64)
        ensures
            r == expiry_after(now),
    {
        if now > u64::MAX - TOKEN_TTL_MS {
            u64::MAX
        } else {
            now + TOKEN_TTL_MS
        }
    }

    fn set_token(&mut self, token: String, expires: u64)
        ensures
            final(self)@ == (CacheView { token: token@, expires, artifacts: Map::empty() }),
            final(self).wf(),
    {
        self.artifacts.clear();
        self.token = token;
        self.expires = expires;
        assert(self@.artifacts =~= Map::<u16, Seq<u8>>::empty());
    }

    /// Starts a refresh: drops every image and says which tier to try first.
    pub fn begin_refresh(&mut self) -> (r: RefreshAction)
        ensures
            (final(self)@, r) == began(old(self)@),
            final(self).wf(),
    {
        self.artifacts.clear();
        assert(self@.artifacts =~= Map::<u16, Seq<u8>>::empty());
        if !self.token.as_str().is_empty() {
            RefreshAction::Soft
        } else {
            RefreshAction::Hard
        }
    }

    /// Records what a soft refresh at `now` derived (`None` when it failed).
    pub fn finish_soft(&mut self, now: u64, derived: Option<String>) -> (r: RefreshAction)
        ensures
            (final(self)@, r) == after_soft(
                old(self)@,
                now,
                match derived {
                    Some(t) => Some(t@),
                    None => None,
                },
            ),
            final(self).wf(),
    {
        match derived {
            Some(t) => {
                if !t.as_str().is_empty() {
                    let e = Cache::expiry_after(now);
                    self.set_token(t, e);
                    return RefreshAction::Ready;
                }
            },
            None => {},
        }
        let e = self.expires;
        self.set_token(String::new(), e);
        RefreshAction::Hard
    }

    /// Records what a hard refresh at `now` derived (`None` when it failed).
    pub fn finish_hard(&mut self, now: u64, derived: Option<String>) -> (r: RefreshAction)
        ensures
            (final(self)@, r) == after_hard(
                old(self)@,
                now,
                match derived {
                    Some(t) => Some(t@),
                    None => None,
                },
            ),
            old(self).wf() ==> final(self).wf(),
    {
        match derived {
            Some(t) => {
                let e = Cache::expiry_after(now);
                self.set_token(t, e);
                RefreshAction::Ready
            },
            None => RefreshAction::Failed,
        }
    }

    /// The image of the current token at `size`, rendered only when not
    /// already cached.
    pub fn artifact(&mut self, size: u16) -> (r: Result<Vec<u8>, HandlerError>)
        ensures
            final(self)@ == artifact_step(old(self)@, size).0,
            match r {
                Ok(b) => artifact_step(old(self)@, size).1 == Some(b@),
                Err(e) => artifact_step(old(self)@, size).1.is_none() && e == HandlerError::RenderFailed,
            },
            old(self).wf() ==> final(self).wf(),
            old(self).wf() && r is Ok ==> artifact_step(old(self)@, size).1 == qr_png_of(
                old(self)@.token,
                size as nat,
            ),
    {
        match self.artifacts.get(&size) {
            Some(b) => {
                let out = b.clone();
                assert(out@ =~= b@);
                return Ok(out);
            },
            None => {},
        }
        match render_png(self.token.as_str(), size) {
            Ok(b) => {
                let out = b.clone();
                assert(out@ =~= b@);
                self.artifacts.insert(size, b);
                assert(self@.artifacts =~= old(self)@.artifacts.insert(size, out@));
                Ok(out)
            },
            Err(_) => Err(HandlerError::RenderFailed),
        }
    }

    /// Answers an accepted request from a fresh cache: the token as text, or
    /// its image at the size asked for.
    pub fn respond(&mut self, params: Params) -> (r: Reply)
        ensures
            params.mode == Mode::Text ==> final(self)@ == old(self)@ && (match r {
                Reply::Text(t) => t@ == old(self)@.token,
                _ => false,
            }),
            params.mode == Mode::Image ==> final(self)@ == artifact_step(old(self)@, params.size).0
                && (match r {
                Reply::Png(b) => artifact_step(old(self)@, params.size).1 == Some(b@),
                Reply::InternalError => artifact_step(old(self)@, params.size).1.is_none(),
                _ => false,
            }),
            old(self).wf() ==> final(self).wf(),
    {
        match params.mode {
            Mode::Text => Reply::Text(self.token()),
            Mode::Image => match self.artifact(params.size) {
                Ok(b) => Reply::Png(b),
                Err(_) => Reply::InternalError,
            },
        }
    }
}

} // verus!
