//! REST plumbing that does not touch the network: errors and endpoint URLs.
use vstd::prelude::*;

use crate::text::{
    concat2, concat3, concat4, spec_decimal, spec_drop_leading, spec_drop_trailing, spec_is_char,
    to_owned_string, trim_end_char, trim_start_char, u64_to_decimal,
};
use crate::json::{json_get, json_number_text, json_parse_bytes, spec_json_get, spec_json_number_text, spec_json_parse_bytes};
use crate::text::{parse_u64, spec_all_digits, spec_digits_value, spec_parse_u64};
use crate::urls::{spec_url_parse, spec_url_text, url_parse, url_text};

verus! {

/// Why a REST call failed.
#[derive(Debug, PartialEq, Eq)]
pub enum HttpError {
    /// The route path was empty once its leading slashes were removed.
    InvalidPath(String),
    /// The request could not be sent or its answer not read.
    Request(String),
    /// The endpoint URL could not be built.
    Url(String),
    /// Discord answered with a status outside 2xx.
    Status { status: u16, body: String },
}

/// The message of an HTTP error.
pub open spec fn spec_http_error_message(e: HttpError) -> Seq<char> {
    match e {
        HttpError::InvalidPath(p) => "invalid URL path: "@ + p@,
        HttpError::Request(m) => "request failed: "@ + m@,
        HttpError::Url(m) => "url parse error: "@ + m@,
        HttpError::Status { status, body } => "request failed with status "@ + spec_status_text(status)
            + ": "@ + body@,
    }
}

/// The canonical reason phrase of an HTTP status code, as
/// `StatusCode::canonical_reason` gives it (`None` for a code it does not
/// name or that is not a status code).
pub uninterp spec fn spec_status_reason(status: u16) -> Option<Seq<char>>;

/// Calls `reqwest::StatusCode::from_u16` and `canonical_reason`.
#[verifier::external_body]
fn status_reason(status: u16) -> (res: Option<&'static str>)
    ensures
        match res {
            Some(r) => spec_status_reason(status) == Some(r@),
            None => spec_status_reason(status) is None,
        },
{
    reqwest::StatusCode::from_u16(status).ok().and_then(|code| code.canonical_reason())
}

/// What a status code is written as: its number, a space and its reason
/// phrase, with `<unknown status code>` for a code without one.
pub open spec fn spec_status_text(status: u16) -> Seq<char> {
    spec_decimal(status as nat) + " "@ + match spec_status_reason(status) {
        Some(r) => r,
        None => UNKNOWN_STATUS_REASON@,
    }
}

/// The phrase written for a status code without a reason phrase.
pub const UNKNOWN_STATUS_REASON: &'static str = "<unknown status code>";

/// Writes a status code: its number, a space and its reason phrase.
pub fn status_text(status: u16) -> (res: String)
    ensures
        res@ == spec_status_text(status),
{
    let reason = match status_reason(status) {
        Some(r) => r,
        None => UNKNOWN_STATUS_REASON,
    };
    concat3(u64_to_decimal(status as u64).as_str(), " ", reason)
}

impl HttpError {
    /// The message shown for this error.
    pub fn message(&self) -> (res: String)
        ensures
            res@ == spec_http_error_message(*self),
    {
        match self {
            HttpError::InvalidPath(p) => concat2("invalid URL path: ", p.as_str()),
            HttpError::Request(m) => concat2("request failed: ", m.as_str()),
            HttpError::Url(m) => concat2("url parse error: ", m.as_str()),
            HttpError::Status { status, body } => concat4(
                "request failed with status ",
                status_text(*status).as_str(),
                ": ",
                body.as_str(),
            ),
        }
    }
}

/// The text of the endpoint URL for a route path under a base URL: the base
/// without trailing slashes, one slash, the path without leading slashes.
pub open spec fn spec_endpoint_text(base: Seq<char>, path: Seq<char>) -> Seq<char> {
    spec_drop_trailing(base, spec_is_char('/')) + "/"@ + spec_drop_leading(path, spec_is_char('/'))
}

/// The text of the endpoint URL for a route path under the API base's text.
///
/// A path that is empty once its leading slashes are removed is refused
/// with `InvalidPath` carrying the path as given; otherwise the base's
/// trailing slashes are dropped and the two are joined by one slash.
pub fn endpoint_text(base: &str, path: &str) -> (res: Result<String, HttpError>)
    ensures
        spec_drop_leading(path@, spec_is_char('/')).len() == 0 ==> (res matches Err(
            HttpError::InvalidPath(p),
        ) && p@ == path@),
        spec_drop_leading(path@, spec_is_char('/')).len() > 0 ==> (res matches Ok(t) && t@
            == spec_endpoint_text(base@, path@)),
{
    let normalized = trim_start_char(path, '/');
    if normalized.unicode_len() == 0 {
        return Err(HttpError::InvalidPath(to_owned_string(path)));
    }
    let trimmed_base = trim_end_char(base, '/');
    Ok(concat3(trimmed_base, "/", normalized))
}

/// The endpoint URL for a route path under the API base URL: the text that
/// `endpoint_text` builds, parsed as a URL.
pub fn endpoint(base_url: &url::Url, path: &str) -> (res: Result<url::Url, HttpError>)
    ensures
        spec_drop_leading(path@, spec_is_char('/')).len() == 0 ==> (res matches Err(
            HttpError::InvalidPath(p),
        ) && p@ == path@),
        spec_drop_leading(path@, spec_is_char('/')).len() > 0 ==> match spec_url_parse(
            spec_endpoint_text(spec_url_text(*base_url), path@),
        ) {
            Ok(u) => res == Ok::<url::Url, HttpError>(u),
            Err(msg) => res matches Err(HttpError::Url(m)) && m@ == msg,
        },
{
    let text = match endpoint_text(url_text(base_url), path) {
        Ok(t) => t,
        Err(e) => return Err(e),
    };
    match url_parse(text.as_str()) {
        Ok(u) => Ok(u),
        Err(msg) => Err(HttpError::Url(msg)),
    }
}

// ---------------------------------------------------------------------------
// Rate limits
// ---------------------------------------------------------------------------

/// How many times a rate-limited request is sent again before its 429 is returned.
pub const MAX_RATE_LIMIT_RETRIES: u32 = 3;

/// The wait before a retry when Discord gives no hint, in milliseconds.
pub const DEFAULT_RETRY_AFTER_MS: u64 = 1000;

/// The status Discord answers a rate-limited request with.
pub const TOO_MANY_REQUESTS: u16 = 429;

/// Milliseconds of a fraction of a second given by its decimal digits,
/// rounded up: the first three digits, plus one when any later digit is not 0.
pub open spec fn spec_fraction_ms(f: Seq<char>) -> nat {
    if f.len() == 0 {
        0
    } else if f.len() == 1 {
        spec_digits_value(f) * 100
    } else if f.len() == 2 {
        spec_digits_value(f) * 10
    } else {
        spec_digits_value(f.subrange(0, 3)) + if exists|i: int| 3 <= i < f.len() && f[i] != '0' {
            1nat
        } else {
            0nat
        }
    }
}

/// Milliseconds of a decimal count of seconds (`12`, `0.01`, `1.5`),
/// rounded up and saturating at `u64::MAX`; `None` for any other text.
pub open spec fn spec_seconds_to_ms(s: Seq<char>) -> Option<u64> {
    let dot = if exists|i: int| 0 <= i < s.len() && s[i] == '.' {
        choose|i: int| 0 <= i < s.len() && s[i] == '.' && forall|j: int| 0 <= j < i ==> s[j] != '.'
    } else {
        s.len() as int
    };
    let whole = s.subrange(0, dot);
    let frac = if dot < s.len() {
        s.subrange(dot + 1, s.len() as int)
    } else {
        Seq::empty()
    };
    if whole.len() > 0 && spec_all_digits(whole) && spec_all_digits(frac) && spec_digits_value(whole) <= u64::MAX {
        let total = spec_digits_value(whole) * 1000 + spec_fraction_ms(frac);
        Some(if total > u64::MAX { u64::MAX } else { total as u64 })
    } else {
        None
    }
}

/// Reads the digits of `s[from..to]` as a number below `10^3` (at most three digits).
fn small_digits(s: &str, from: usize, to: usize) -> (res: u64)
    requires
        from <= to <= s@.len(),
        to - from <= 3,
        spec_all_digits(s@.subrange(from as int, to as int)),
    ensures
        res == spec_digits_value(s@.subrange(from as int, to as int)),
        res < 1000,
{
    let mut v: u64 = 0;
    let mut i: usize = from;
    while i < to
        invariant
            from <= i <= to <= s@.len(),
            to - from <= 3,
            spec_all_digits(s@.subrange(from as int, to as int)),
            v == spec_digits_value(s@.subrange(from as int, i as int)),
            v < if i - from == 0 { 1int } else if i - from == 1 { 10int } else if i - from == 2 { 100int } else { 1000int },
        decreases to - i,
    {
        let c = s.get_char(i);
        proof {
            assert(s@.subrange(from as int, to as int)[i - from] == c);
            assert(s@.subrange(from as int, i + 1).drop_last() =~= s@.subrange(from as int, i as int));
        }
        v = v * 10 + (c as u32 - '0' as u32) as u64;
        i = i + 1;
    }
    v
}

/// Milliseconds of a decimal count of seconds, rounded up (see `spec_seconds_to_ms`).
pub fn seconds_to_ms(s: &str) -> (res: Option<u64>)
    ensures
        res == spec_seconds_to_ms(s@),
{
    let n = s.unicode_len();
    let mut dot: usize = 0;
    while dot < n && s.get_char(dot) != '.'
        invariant
            n == s@.len(),
            dot <= n,
            forall|j: int| 0 <= j < dot ==> s@[j] != '.',
        decreases n - dot,
    {
        dot = dot + 1;
    }
    proof {
        if dot < n {
            let c = choose|i: int| 0 <= i < s@.len() && s@[i] == '.' && forall|j: int| 0 <= j < i ==> s@[j] != '.';
            if c < dot {
                assert(s@[c] != '.');
            }
            if dot < c {
                assert(s@[dot as int] != '.');
            }
        } else {
            assert(!(exists|i: int| 0 <= i < s@.len() && s@[i] == '.'));
        }
    }
    if dot == 0 {
        return None;
    }
    let whole_text = s.substring_char(0, dot);
    let whole = match parse_u64(whole_text) {
        Some(w) => w,
        None => return None,
    };
    // `parse_u64` also takes a leading `+`, which a count of seconds may not have.
    if whole_text.get_char(0) == '+' {
        return None;
    }
    let frac_start: usize = if dot < n {
        dot + 1
    } else {
        n
    };
    let mut k: usize = frac_start;
    while k < n && '0' <= s.get_char(k) && s.get_char(k) <= '9'
        invariant
            n == s@.len(),
            frac_start <= k <= n,
            forall|j: int| frac_start <= j < k ==> '0' <= #[trigger] s@[j] <= '9',
        decreases n - k,
    {
        k = k + 1;
    }
    if k < n {
        proof {
            assert(s@.subrange(frac_start as int, n as int)[k - frac_start] == s@[k as int]);
        }
        return None;
    }
    let frac_len = n - frac_start;
    let head_end = if frac_len > 3 {
        frac_start + 3
    } else {
        n
    };
    proof {
        assert forall|j: int| 0 <= j < (head_end - frac_start) implies '0' <= #[trigger] s@.subrange(frac_start as int, head_end as int)[j] <= '9' by {
            assert(s@.subrange(frac_start as int, head_end as int)[j] == s@[frac_start + j]);
        }
    }
    let head = small_digits(s, frac_start, head_end);
    let mut extra: u64 = 0;
    let mut j: usize = head_end;
    while j < n
        invariant
            n == s@.len(),
            head_end <= j <= n,
            extra == 0 || extra == 1,
            (extra == 1) == (exists|i: int| head_end <= i < j && s@[i] != '0'),
        decreases n - j,
    {
        if s.get_char(j) != '0' {
            extra = 1;
        }
        j = j + 1;
    }
    let frac_ms: u64 = if frac_len == 0 {
        0
    } else if frac_len == 1 {
        head * 100
    } else if frac_len == 2 {
        head * 10
    } else {
        head + extra
    };
    proof {
        let frac = s@.subrange(frac_start as int, n as int);
        let whole_seq = s@.subrange(0, dot as int);
        assert(whole_text@ == whole_seq);
        assert(frac_len >= 3 ==> frac.subrange(0, 3) =~= s@.subrange(frac_start as int, head_end as int));
        assert(frac_len <= 3 ==> frac =~= s@.subrange(frac_start as int, head_end as int));
        assert((exists|i: int| 3 <= i < frac.len() && frac[i] != '0') == (exists|i: int| head_end <= i < n && s@[i] != '0')) by {
            if frac_len >= 3 {
                if exists|i: int| 3 <= i < frac.len() && frac[i] != '0' {
                    let i = choose|i: int| 3 <= i < frac.len() && frac[i] != '0';
                    assert(s@[frac_start + i] == frac[i]);
                }
                if exists|i: int| head_end <= i < n && s@[i] != '0' {
                    let i = choose|i: int| head_end <= i < n && s@[i] != '0';
                    assert(frac[i - frac_start] == s@[i]);
                }
            }
        }
        assert forall|q: int| 0 <= q < frac.len() implies '0' <= #[trigger] frac[q] <= '9' by {
            assert(frac[q] == s@[frac_start + q]);
        }
        assert(dot == n ==> frac =~= Seq::<char>::empty());
        assert(spec_fraction_ms(frac) == frac_ms);
        assert(spec_parse_u64(whole_seq) == Some(whole));
        assert(whole_seq[0] != '+');
        assert(spec_all_digits(whole_seq));
        assert(spec_digits_value(whole_seq) == whole);
    }
    let scaled: u64 = match whole.checked_mul(1000) {
        Some(v) => v,
        None => return Some(u64::MAX),
    };
    Some(scaled.saturating_add(frac_ms))
}

/// The wait a rate-limited answer asks for: the `Retry-After` header's
/// seconds when it reads, else the JSON body's `retry_after` seconds when
/// it reads, else the default.
pub open spec fn spec_retry_after_ms(header: Option<Seq<char>>, body: Seq<u8>) -> u64 {
    let from_header = match header {
        Some(h) => spec_seconds_to_ms(h),
        None => None,
    };
    let from_body = match spec_json_parse_bytes(body) {
        Ok(doc) => match spec_json_get(doc, "retry_after"@) {
            Some(v) => match spec_json_number_text(v) {
                Some(t) => spec_seconds_to_ms(t),
                None => None,
            },
            None => None,
        },
        Err(_) => None,
    };
    match from_header {
        Some(ms) => ms,
        None => match from_body {
            Some(ms) => ms,
            None => DEFAULT_RETRY_AFTER_MS,
        },
    }
}

/// The wait a rate-limited answer asks for, in milliseconds.
pub fn retry_after_ms(header: Option<&str>, body: &[u8]) -> (res: u64)
    ensures
        res == spec_retry_after_ms(match header {
            Some(h) => Some(h@),
            None => None,
        }, body@),
{
    match header {
        Some(h) => match seconds_to_ms(h) {
            Some(ms) => return ms,
            None => {},
        },
        None => {},
    }
    let from_body = match json_parse_bytes(body) {
        Ok(doc) => match json_get(&doc, "retry_after") {
            Some(v) => match json_number_text(&v) {
                Some(t) => seconds_to_ms(t.as_str()),
                None => None,
            },
            None => None,
        },
        Err(_) => None,
    };
    match from_body {
        Some(ms) => ms,
        None => DEFAULT_RETRY_AFTER_MS,
    }
}

/// Whether an answer is retried, and after how long: a 429 is retried while
/// fewer than `MAX_RATE_LIMIT_RETRIES` retries were made; anything else is final.
pub fn rate_limit_retry(status: u16, retries_so_far: u32, retry_after_header: Option<&str>, body: &[u8]) -> (res: Option<u64>)
    ensures
        (status == TOO_MANY_REQUESTS && retries_so_far < MAX_RATE_LIMIT_RETRIES) ==> res == Some(
            spec_retry_after_ms(match retry_after_header {
                Some(h) => Some(h@),
                None => None,
            }, body@),
        ),
        !(status == TOO_MANY_REQUESTS && retries_so_far < MAX_RATE_LIMIT_RETRIES) ==> res is None,
{
    if status == TOO_MANY_REQUESTS && retries_so_far < MAX_RATE_LIMIT_RETRIES {
        Some(retry_after_ms(retry_after_header, body))
    } else {
        None
    }
}

/// Retries are bounded: from the bound on, no answer is retried.
pub proof fn law_rate_limit_retries_bounded(status: u16, retries_so_far: u32)
    requires
        retries_so_far >= MAX_RATE_LIMIT_RETRIES,
    ensures
        !(status == TOO_MANY_REQUESTS && retries_so_far < MAX_RATE_LIMIT_RETRIES),
{
}

} // verus!
