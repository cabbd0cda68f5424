//! Validation of an inbound request: method, API key and query parameters.

use vstd::prelude::*;
use vstd::string::StrSliceExecFns;
use vstd::string::StringExecFns;

use crate::outside::{form_pairs_of, pairs_view, query_pairs};

verus! {

/// Side length in pixels of the image served when no `size` is given.
pub const DEFAULT_PNG_SIZE: u16 = 256;

/// What a request asks for.
#[derive(Clone, Copy, Debug, PartialEq, Eq, Structural)]
pub enum Mode {
    Text,
    Image,
}

/// The parameters of an accepted request.
#[derive(Clone, Copy, Debug, PartialEq, Eq, Structural)]
pub struct Params {
    pub mode: Mode,
    pub size: u16,
}

/// Why a request is turned away before the cache is touched.
#[derive(Clone, Copy, Debug, PartialEq, Eq, Structural)]
pub enum Rejection {
    NotFound,
    Unauthorized,
    BadRequest,
}

impl Rejection {
    pub open spec fn spec_status(self) -> u16 {
        match self {
            Rejection::NotFound => 404,
            Rejection::Unauthorized => 401,
            Rejection::BadRequest => 400,
        }
    }

    /// The HTTP status code of the rejection.
    pub fn status(&self) -> (r: u16)
        ensures
            r == self.spec_status(),
    {
        match self {
            Rejection::NotFound => 404,
            Rejection::Unauthorized => 401,
            Rejection::BadRequest => 400,
        }
    }
}

/// The parts of an HTTP request that decide whether it is served.
#[derive(Debug)]
pub struct RequestHead {
    /// Whether the method is GET.
    pub is_get: bool,
    /// The `X-API-KEY` header, if present and readable as text.
    pub api_key: Option<String>,
    /// The raw query string (empty when the URI has none).
    pub query: String,
}

pub open spec fn opt_view(o: Option<String>) -> Option<Seq<char>> {
    match o {
        Some(s) => Some(s@),
        None => None,
    }
}

/// The value of the last pair named `key`: later pairs override earlier ones.
pub open spec fn last_value(pairs: Seq<(Seq<char>, Seq<char>)>, key: Seq<char>) -> Option<Seq<char>>
    decreases pairs.len(),
{
    if pairs.len() == 0 {
        None
    } else if pairs.last().0 == key {
        Some(pairs.last().1)
    } else {
        last_value(pairs.drop_last(), key)
    }
}

pub open spec fn is_digit(c: char) -> bool {
    '0' <= c && c <= '9'
}

pub open spec fn all_digits(s: Seq<char>) -> bool {
    forall|i: int| 0 <= i < s.len() ==> is_digit(#[trigger] s[i])
}

/// The number that a string of decimal digits writes.
pub open spec fn digits_value(s: Seq<char>) -> nat
    decreases s.len(),
{
    if s.len() == 0 {
        0
    } else {
        digits_value(s.drop_last()) * 10 + (s.last() as u32 - '0' as u32) as nat
    }
}

/// A valid image size: decimal digits writing a number from 1 to 65535.
pub open spec fn size_of_text(s: Seq<char>) -> Option<u16> {
    if s.len() > 0 && all_digits(s) && 1 <= digits_value(s) <= u16::MAX {
        Some(digits_value(s) as u16)
    } else {
        None
    }
}

/// The outcome of validating a request, checked in this order: method, API
/// key, `type`, then `size` (read only for images).
pub open spec fn request_outcome(
    is_get: bool,
    presented: Option<Seq<char>>,
    configured: Seq<char>,
    pairs: Seq<(Seq<char>, Seq<char>)>,
) -> Result<Params, Rejection> {
    if !is_get {
        Err(Rejection::NotFound)
    } else if presented != Some(configured) {
        Err(Rejection::Unauthorized)
    } else {
        match last_value(pairs, "type"@) {
            None => Ok(Params { mode: Mode::Text, size: DEFAULT_PNG_SIZE }),
            Some(t) => if t == "txt"@ {
                Ok(Params { mode: Mode::Text, size: DEFAULT_PNG_SIZE })
            } else if t == "png"@ {
                match last_value(pairs, "size"@) {
                    None => Ok(Params { mode: Mode::Image, size: DEFAULT_PNG_SIZE }),
                    Some(s) => match size_of_text(s) {
                        Some(n) => Ok(Params { mode: Mode::Image, size: n }),
                        None => Err(Rejection::BadRequest),
                    },
                }
            } else {
                Err(Rejection::BadRequest)
            },
        }
    }
}

proof fn lemma_digits_prefix_le(s: Seq<char>, j: int)
    requires
        0 <= j <= s.len(),
        all_digits(s),
    ensures
        digits_value(s.subrange(0, j)) <= digits_value(s),
    decreases s.len() - j,
{
    if j < s.len() {
        lemma_digits_prefix_le(s, j + 1);
        let p = s.subrange(0, j + 1);
        assert(p.drop_last() =~= s.subrange(0, j));
        assert(is_digit(s[j]));
    } else {
        assert(s.subrange(0, j) =~= s);
    }
}

/// Reads an image size written in decimal; `None` unless it is from 1 to 65535.
pub fn parse_size(s: &str) -> (r: Option<u16>)
    ensures
        r == size_of_text(s@),
{
    let n = s.unicode_len();
    if n == 0 {
        return None;
    }
    let mut acc: u64 = 0;
    let mut i: usize = 0;
    while i < n
        invariant
            n == s@.len(),
            0 <= i <= n,
            all_digits(s@.subrange(0, i as int)),
            acc as nat == digits_value(s@.subrange(0, i as int)),
            acc <= u16::MAX,
        decreases n - i,
    {
        let c = s.get_char(i);
        if c < '0' || c > '9' {
            assert(!is_digit(s@[i as int]));
            assert(!all_digits(s@));
            return None;
        }
        let ghost prev = s@.subrange(0, i as int);
        let ghost next = s@.subrange(0, i as int + 1);
        assert(next.drop_last() =~= prev);
        assert(next.last() == c);
        acc = acc * 10 + (c as u32 - '0' as u32) as u64;
        i = i + 1;
        assert(all_digits(next)) by {
            assert forall|k: int| 0 <= k < next.len() implies is_digit(#[trigger] next[k]) by {
                if k < i - 1 {
                    assert(next[k] == prev[k]);
                }
            }
        }
        if acc > 65535 {
            proof {
                if all_digits(s@) {
                    lemma_digits_prefix_le(s@, i as int);
                }
            }
            return None;
        }
    }
    assert(s@.subrange(0, n as int) =~= s@);
    if acc == 0 {
        return None;
    }
    Some(acc as u16)
}

/// Whether `s` holds exactly the text `w`.
fn is_word(s: &String, w: &str) -> (r: bool)
    ensures
        r == (s@ == w@),
{
    let t = String::from_str(w);
    *s == t
}

/// The value of the last pair named `key`.
pub fn find_last(pairs: &Vec<(String, String)>, key: &str) -> (r: Option<String>)
    ensures
        opt_view(r) == last_value(pairs_view(pairs@), key@),
{
    let mut i: usize = pairs.len();
    assert(pairs@.subrange(0, i as int) =~= pairs@);
    while i > 0
        invariant
            i <= pairs@.len(),
            last_value(pairs_view(pairs@), key@) == last_value(pairs_view(pairs@.subrange(0, i as int)), key@),
        decreases i,
    {
        let ghost sub = pairs_view(pairs@.subrange(0, i as int));
        assert(sub.drop_last() =~= pairs_view(pairs@.subrange(0, i as int - 1)));
        if is_word(&pairs[i - 1].0, key) {
            return Some(pairs[i - 1].1.clone());
        }
        i = i - 1;
    }
    None
}

/// Validates a request from its method, its API key and its decoded query pairs.
pub fn decide_request(
    is_get: bool,
    presented: &Option<String>,
    configured: &String,
    pairs: &Vec<(String, String)>,
) -> (r: Result<Params, Rejection>)
    ensures
        r == request_outcome(is_get, opt_view(*presented), configured@, pairs_view(pairs@)),
{
    if !is_get {
        return Err(Rejection::NotFound);
    }
    let key_ok = match presented {
        Some(k) => *k == *configured,
        None => false,
    };
    if !key_ok {
        return Err(Rejection::Unauthorized);
    }
    match find_last(pairs, "type") {
        None => Ok(Params { mode: Mode::Text, size: DEFAULT_PNG_SIZE }),
        Some(t) => {
            if is_word(&t, "txt") {
                Ok(Params { mode: Mode::Text, size: DEFAULT_PNG_SIZE })
            } else if is_word(&t, "png") {
                match find_last(pairs, "size") {
                    None => Ok(Params { mode: Mode::Image, size: DEFAULT_PNG_SIZE }),
                    Some(s) => match parse_size(s.as_str()) {
                        Some(n) => Ok(Params { mode: Mode::Image, size: n }),
                        None => Err(Rejection::BadRequest),
                    },
                }
            } else {
                Err(Rejection::BadRequest)
            }
        },
    }
}

/// The request-facing side of the service: it holds the configured API key.
pub struct Handler {
    api_key: String,
}

impl Handler {
    pub closed spec fn spec_api_key(&self) -> Seq<char> {
        self.api_key@
    }

    pub fn new(api_key: String) -> (r: Handler)
        ensures
            r.spec_api_key() == api_key@,
    {
        Handler { api_key }
    }

    /// Validates a request; `Ok` carries what it asks for.
    pub fn check(&self, head: &RequestHead) -> (r: Result<Params, Rejection>)
        ensures
            r == request_outcome(
                head.is_get,
                opt_view(head.api_key),
                self.spec_api_key(),
                form_pairs_of(head.query@),
            ),
    {
        let pairs = query_pairs(head.query.as_str());
        decide_request(head.is_get, &head.api_key, &self.api_key, &pairs)
    }
}

} // verus!
