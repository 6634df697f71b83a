use vstd::prelude::*;

use leaky_bucket_lite::LeakyBucket;
use std::time::Duration;

use crate::rate::{spec_full_bucket, RateLimiterModel};
use crate::util::{spec_dec_chars, u64_to_string};

verus! {

/// The coarse upstream classification: each site selects one rate
/// limiter slot.
#[derive(Clone, Copy, PartialEq, Eq, Structural, Debug, Hash)]
pub enum Site {
    DiscordAttachment,
    Huismetbenen,
    Osekai,
    OsuAvatar,
    OsuBadge,
    OsuMapFile,
    OsuMapsetCover,
    OsuStats,
    OsuTracker,
    Respektive,
}

impl Site {
    /// The limiter slot of the site.
    pub open spec fn spec_index(self) -> int {
        match self {
            Site::DiscordAttachment => 0,
            Site::Huismetbenen => 1,
            Site::Osekai => 2,
            Site::OsuAvatar => 3,
            Site::OsuBadge => 4,
            Site::OsuMapFile => 5,
            Site::OsuMapsetCover => 6,
            Site::OsuStats => 7,
            Site::OsuTracker => 8,
            Site::Respektive => 9,
        }
    }

    pub fn index(self) -> (r: usize)
        ensures
            r == self.spec_index(),
    {
        match self {
            Site::DiscordAttachment => 0,
            Site::Huismetbenen => 1,
            Site::Osekai => 2,
            Site::OsuAvatar => 3,
            Site::OsuBadge => 4,
            Site::OsuMapFile => 5,
            Site::OsuMapsetCover => 6,
            Site::OsuStats => 7,
            Site::OsuTracker => 8,
            Site::Respektive => 9,
        }
    }

    /// How many requests per second the site admits.
    pub open spec fn spec_requests_per_second(self) -> u32 {
        match self {
            Site::DiscordAttachment => 2,
            Site::Huismetbenen => 2,
            Site::Osekai => 2,
            Site::OsuAvatar => 10,
            Site::OsuBadge => 10,
            Site::OsuMapFile => 5,
            Site::OsuMapsetCover => 10,
            Site::OsuStats => 2,
            Site::OsuTracker => 2,
            Site::Respektive => 1,
        }
    }

    pub fn requests_per_second(self) -> (r: u32)
        ensures
            r == self.spec_requests_per_second(),
    {
        match self {
            Site::DiscordAttachment => 2,
            Site::Huismetbenen => 2,
            Site::Osekai => 2,
            Site::OsuAvatar => 10,
            Site::OsuBadge => 10,
            Site::OsuMapFile => 5,
            Site::OsuMapsetCover => 10,
            Site::OsuStats => 2,
            Site::OsuTracker => 2,
            Site::Respektive => 1,
        }
    }
}

#[verifier::external_type_specification]
#[verifier::external_body]
pub struct ExLeakyBucket(LeakyBucket);

/// The token bound the bucket was built with.
pub uninterp spec fn limiter_max(b: LeakyBucket) -> u32;

/// The refill period the bucket was built with, in milliseconds.
pub uninterp spec fn limiter_refill_interval_ms(b: LeakyBucket) -> u64;

/// The tokens each refill adds.
pub uninterp spec fn limiter_refill_amount(b: LeakyBucket) -> u32;

/// The tokens the bucket was built holding.
pub uninterp spec fn limiter_initial_tokens(b: LeakyBucket) -> u32;

/// Relies on leaky_bucket_lite::Builder and LeakyBucket::build: the
/// bucket starts full at `per_second` tokens and refills one token
/// every `1000 / per_second` milliseconds.
#[verifier::external_body]
fn build_limiter(per_second: u32) -> (r: LeakyBucket)
    requires
        1 <= per_second <= 1000,
    ensures
        limiter_max(r) == per_second,
        limiter_refill_interval_ms(r) == 1000u64 / per_second as u64,
        limiter_refill_amount(r) == 1,
        limiter_initial_tokens(r) == per_second,
{
    LeakyBucket::builder()
        .max(per_second)
        .tokens(per_second)
        .refill_interval(Duration::from_millis(1000 / per_second as u64))
        .refill_amount(1)
        .build()
}

/// The outbound rate limiters, one per site. A request first acquires
/// one token from the limiter `get` hands out for its site; without a
/// token the caller suspends, so the request never reaches the socket
/// early.
pub struct HttpRatelimiters {
    pub buckets: Vec<LeakyBucket>,
}

/// The limiter in slot `i` carries the configuration of the site with
/// index `i`.
pub open spec fn spec_limiter_ok(b: LeakyBucket, per_second: u32) -> bool {
    &&& limiter_max(b) == per_second
    &&& limiter_refill_interval_ms(b) == 1000u64 / per_second as u64
    &&& limiter_refill_amount(b) == 1
    &&& limiter_initial_tokens(b) == per_second
}

impl HttpRatelimiters {
    pub open spec fn wf(&self) -> bool {
        &&& self.buckets@.len() == 10
        &&& forall|s: Site|
            spec_limiter_ok(
                self.buckets@[(#[trigger] s.spec_index())],
                s.spec_requests_per_second(),
            )
    }

    /// The fixed per-site limits.
    pub fn new() -> (r: Self)
        ensures
            r.wf(),
    {
        let mut buckets: Vec<LeakyBucket> = Vec::new();
        buckets.push(build_limiter(2));  // attachments
        buckets.push(build_limiter(2));  // Huismetbenen
        buckets.push(build_limiter(2));  // Osekai
        buckets.push(build_limiter(10));  // avatars
        buckets.push(build_limiter(10));  // badges
        buckets.push(build_limiter(5));  // map files
        buckets.push(build_limiter(10));  // mapset covers
        buckets.push(build_limiter(2));  // osu stats
        buckets.push(build_limiter(2));  // osu tracker
        buckets.push(build_limiter(1));  // Respektive

        let r = Self { buckets };

        proof {
            assert forall|s: Site|
                spec_limiter_ok(
                    r.buckets@[(#[trigger] s.spec_index())],
                    s.spec_requests_per_second(),
                ) by {
                assert(0 <= s.spec_index() < 10);
            }
        }

        r
    }

    /// The limiter of `site` — that site's own slot, carrying that
    /// site's admission rate.
    pub fn get(&self, site: Site) -> (r: &LeakyBucket)
        requires
            self.wf(),
        ensures
            *r == self.buckets@[site.spec_index()],
            spec_limiter_ok(*r, site.spec_requests_per_second()),
    {
        &self.buckets[site.index()]
    }
}

/// The timing model of a limiter at the moment it was built: its
/// build parameters, with the first refill one period away.
pub open spec fn spec_limiter_model(b: LeakyBucket, t0: int) -> RateLimiterModel {
    RateLimiterModel {
        max: limiter_max(b) as nat,
        tokens: limiter_initial_tokens(b) as nat,
        refill_interval_ms: limiter_refill_interval_ms(b) as nat,
        refill_amount: limiter_refill_amount(b) as nat,
        next_refill_ms: t0 + limiter_refill_interval_ms(b),
    }
}

/// Law: every site's limiter starts full. Its model at build time is
/// exactly the full bucket of its admission rate — the state the
/// burst-spacing law of the rate model starts from.
pub proof fn lemma_limiter_starts_full(limiters: &HttpRatelimiters, site: Site, t0: int)
    requires
        limiters.wf(),
    ensures
        spec_limiter_model(limiters.buckets@[site.spec_index()], t0) == spec_full_bucket(
            site.spec_requests_per_second() as nat,
            (1000u64 / site.spec_requests_per_second() as u64) as nat,
            t0,
        ),
{
}

/// Law: the limiter handed out for a site is the one built with that
/// site's admission rate, so the token every request acquires before
/// its send comes from the matching limiter.
pub proof fn lemma_request_uses_matching_limiter(limiters: &HttpRatelimiters, site: Site)
    requires
        limiters.wf(),
    ensures
        spec_limiter_ok(
            limiters.buckets@[site.spec_index()],
            site.spec_requests_per_second(),
        ),
{
}

/// A response outside the 2xx/3xx range, with the requested URL.
#[derive(Debug)]
pub struct StatusError {
    pub status: u16,
    pub url: String,
}

impl StatusError {
    pub fn new(status: u16, url: String) -> (r: Self)
        ensures
            r.status == status,
            r.url == url,
    {
        Self { status, url }
    }

    /// The error line shown for this failure.
    pub fn message(&self) -> (r: String)
        ensures
            r@ == "failed with status code "@ + spec_dec_chars(self.status as nat)
                + " when requesting "@ + self.url@,
    {
        let mut msg = String::from_str("failed with status code ");
        let num = u64_to_string(self.status as u64);
        msg.append(num.as_str());
        msg.append(" when requesting ");
        msg.append(self.url.as_str());
        msg
    }
}

/// The status policy: a 4xx or 5xx response fails with the status and
/// the original URL; anything else hands the body through.
pub fn error_for_status(status: u16, url: &str, body: Vec<u8>) -> (r: Result<Vec<u8>, StatusError>)
    ensures
        400 <= status <= 599 ==> (r matches Err(e) && e.status == status && e.url@ == url@),
        !(400 <= status <= 599) ==> (r matches Ok(b) && b == body),
{
    if 400 <= status && status <= 599 {
        Err(StatusError::new(status, String::from_str(url)))
    } else {
        Ok(body)
    }
}

/// The `User-Agent` every outbound request carries.
pub const MY_USER_AGENT: &'static str = "shishabot";

pub enum HttpMethod {
    Get,
    Post,
}

/// One outbound request, ready to execute: acquire a token from the
/// limiter of `site` first, then send.
pub struct RequestPlan {
    pub method: HttpMethod,
    pub url: String,
    pub site: Site,
    pub user_agent: String,
    pub content_type: Option<String>,
    pub body: Option<String>,
}

/// The URL-encoded form of string pairs: a function of the pairs
/// alone.
pub uninterp spec fn urlencoded_of(keys: Seq<Seq<char>>, values: Seq<Seq<char>>) -> Seq<char>;

/// Relies on serde_urlencoded::to_string: for a sequence of string
/// pairs it percent-encodes each pair as `key=value`, joined with
/// `&` — a function of the pairs alone, named `urlencoded_of` here.
/// On string pairs it always succeeds: both the key and the value go
/// through the string serializer, and errors arise only for
/// unsupported types.
#[verifier::external_body]
fn urlencode_pairs(form: &Vec<(String, String)>) -> (r: Option<String>)
    ensures
        r is Some,
        r matches Some(s) ==> s@ == urlencoded_of(
            form.deep_view().map_values(|p: (Seq<char>, Seq<char>)| p.0),
            form.deep_view().map_values(|p: (Seq<char>, Seq<char>)| p.1),
        ),
{
    match serde_urlencoded::to_string(form) {
        Ok(s) => Some(s),
        Err(_) => None,
    }
}

/// A GET request: no body, the application's user agent.
pub fn get_request_plan(url: String, site: Site) -> (r: RequestPlan)
    ensures
        r.method is Get,
        r.url == url,
        r.site == site,
        r.user_agent@ == MY_USER_AGENT@,
        r.content_type is None,
        r.body is None,
{
    RequestPlan {
        method: HttpMethod::Get,
        url,
        site,
        user_agent: String::from_str(MY_USER_AGENT),
        content_type: None,
        body: None,
    }
}

/// A POST request: the form URL-encoded as the body, with the matching
/// content type and the application's user agent. A form of string
/// pairs always serializes, so a plan always comes back.
pub fn post_request_plan(url: String, site: Site, form: &Vec<(String, String)>) -> (r: Option<
    RequestPlan,
>)
    ensures
        r is Some,
        r matches Some(p) ==> {
            &&& p.method is Post
            &&& p.url == url
            &&& p.site == site
            &&& p.user_agent@ == MY_USER_AGENT@
            &&& p.content_type matches Some(ct) && ct@
                == "application/x-www-form-urlencoded"@
            &&& p.body matches Some(b) && b@ == urlencoded_of(
                form.deep_view().map_values(|p: (Seq<char>, Seq<char>)| p.0),
                form.deep_view().map_values(|p: (Seq<char>, Seq<char>)| p.1),
            )
        },
{
    let body = match urlencode_pairs(form) {
        Some(b) => b,
        None => {
            return None;
        },
    };

    Some(
        RequestPlan {
            method: HttpMethod::Post,
            url,
            site,
            user_agent: String::from_str(MY_USER_AGENT),
            content_type: Some(String::from_str("application/x-www-form-urlencoded")),
            body: Some(body),
        },
    )
}

/// Errors of the HTTP client that handlers see.
#[derive(Debug)]
pub enum ClientError {
    /// A 4xx or 5xx response.
    Status(StatusError),
    /// The transport failed before a status arrived.
    Failed(String),
    /// The map file of the id could not be fetched within the retry
    /// budget.
    RetryLimitReached(u32),
}

/// What one attempted fetch came back with.
pub enum FetchOutcome {
    Success(Vec<u8>),
    Status(StatusError),
    Failed(String),
}

/// The base of the map file URLs.
pub const OSU_BASE: &'static str = "https://osu.ppy.sh/";

/// The URL the map file of `map_id` is fetched from.
pub fn map_file_url(map_id: u32) -> (r: String)
    ensures
        r@ == "https://osu.ppy.sh/osu/"@ + spec_dec_chars(map_id as nat),
{
    let mut url = String::from_str("https://osu.ppy.sh/osu/");
    let num = u64_to_string(map_id as u64);
    url.append(num.as_str());
    url
}

/// How many fetches `get_map_file` attempts at most.
pub const MAP_FILE_ATTEMPTS: u32 = 10;

/// The backoff before the next attempt after the `attempt`-th fetch:
/// 500 ms, doubling, capped at 10 s.
pub open spec fn spec_backoff_ms(attempt: nat) -> nat
    decreases attempt,
{
    if attempt <= 1 {
        500
    } else if 2 * spec_backoff_ms((attempt - 1) as nat) < 10000 {
        2 * spec_backoff_ms((attempt - 1) as nat)
    } else {
        10000
    }
}

pub fn backoff_ms(attempt: u32) -> (r: u64)
    requires
        attempt >= 1,
    ensures
        r == spec_backoff_ms(attempt as nat),
        r <= 10000,
    decreases attempt,
{
    if attempt <= 1 {
        500
    } else {
        let prev = backoff_ms(attempt - 1);
        if 2 * prev < 10000 {
            2 * prev
        } else {
            10000
        }
    }
}

/// The milliseconds slept over the first `n` retries.
pub open spec fn spec_backoff_total_ms(n: nat) -> nat
    decreases n,
{
    if n == 0 {
        0
    } else {
        spec_backoff_total_ms((n - 1) as nat) + spec_backoff_ms(n)
    }
}

/// Law: the retry schedule is the doubling series from 500 ms with
/// each term capped at 10 s, so three retries sleep 3.5 s altogether
/// and the full budget of nine sleeps 55.5 s.
pub proof fn lemma_backoff_schedule()
    ensures
        spec_backoff_ms(1) == 500,
        spec_backoff_ms(2) == 1000,
        spec_backoff_ms(3) == 2000,
        spec_backoff_ms(4) == 4000,
        spec_backoff_ms(5) == 8000,
        spec_backoff_ms(6) == 10000,
        forall|a: nat| a >= 6 ==> spec_backoff_ms(a) == 10000,
        spec_backoff_total_ms(3) == 3500,
        spec_backoff_total_ms(9) == 55500,
{
    assert forall|a: nat| a >= 6 implies spec_backoff_ms(a) == 10000 by {
        lemma_backoff_saturates(a);
    }
    assert(spec_backoff_total_ms(0) == 0);
    assert(spec_backoff_total_ms(1) == 500);
    assert(spec_backoff_total_ms(2) == 1500);
    assert(spec_backoff_total_ms(3) == 3500);
    assert(spec_backoff_total_ms(4) == 7500);
    assert(spec_backoff_total_ms(5) == 15500);
    assert(spec_backoff_total_ms(6) == 25500);
    assert(spec_backoff_total_ms(7) == 35500);
    assert(spec_backoff_total_ms(8) == 45500);
    assert(spec_backoff_total_ms(9) == 55500);
}

proof fn lemma_backoff_saturates(a: nat)
    requires
        a >= 6,
    ensures
        spec_backoff_ms(a) == 10000,
    decreases a,
{
    if a > 6 {
        lemma_backoff_saturates((a - 1) as nat);
    } else {
        assert(spec_backoff_ms(1) == 500);
        assert(spec_backoff_ms(2) == 1000);
        assert(spec_backoff_ms(3) == 2000);
        assert(spec_backoff_ms(4) == 4000);
        assert(spec_backoff_ms(5) == 8000);
        assert(spec_backoff_ms(6) == 10000);
    }
}

/// Whether the body is the upstream's HTML placeholder rather than a
/// map file: it begins with the bytes `<html>`.
pub open spec fn spec_html_sentinel(b: Seq<u8>) -> bool {
    b.len() >= 6 && b.subrange(0, 6) == "<html>"@.map_values(|c: char| c as u8)
}

fn is_html_sentinel(body: &Vec<u8>) -> (r: bool)
    ensures
        r == spec_html_sentinel(body@),
{
    proof {
        reveal_strlit("<html>");
    }

    if body.len() < 6 {
        return false;
    }

    let r = body[0] == 60 && body[1] == 104 && body[2] == 116 && body[3] == 109 && body[4] == 108
        && body[5] == 62;

    proof {
        let expected = "<html>"@.map_values(|c: char| c as u8);
        assert(expected.len() == 6);
        assert(expected[0] == 60 && expected[1] == 104 && expected[2] == 116 && expected[3] == 109
            && expected[4] == 108 && expected[5] == 62);
        if r {
            assert(body@.subrange(0, 6) =~= expected);
        } else {
            assert(body@.subrange(0, 6) != expected) by {
                if body@.subrange(0, 6) == expected {
                    assert(body@[0] == expected[0] && body@[1] == expected[1] && body@[2]
                        == expected[2] && body@[3] == expected[3] && body@[4] == expected[4]
                        && body@[5] == expected[5]);
                }
            }
        }
    }

    r
}

/// Whether the attempt is retried: only a 429 status or the HTML
/// placeholder body.
pub open spec fn spec_map_file_retryable(outcome: &FetchOutcome) -> bool {
    match outcome {
        FetchOutcome::Success(body) => spec_html_sentinel(body@),
        FetchOutcome::Status(e) => e.status == 429,
        FetchOutcome::Failed(_) => false,
    }
}

/// What the `attempt`-th fetch outcome leads to.
pub enum RetryStep {
    /// Hand the result out as it stands.
    Done(Result<Vec<u8>, ClientError>),
    /// Sleep this long, then fetch again as attempt `attempt + 1`.
    RetryAfterMs(u64),
}

/// The retry decision of `get_map_file`: a 429 or an HTML placeholder
/// is retried with the attempt's backoff while the budget lasts; on
/// the last attempt it becomes the terminal retry-limit error; any
/// other outcome, success or failure, is final as it stands.
pub fn map_file_step(map_id: u32, attempt: u32, outcome: FetchOutcome) -> (r: RetryStep)
    requires
        1 <= attempt <= MAP_FILE_ATTEMPTS,
    ensures
        spec_map_file_retryable(&outcome) && attempt < MAP_FILE_ATTEMPTS ==> r
            == RetryStep::RetryAfterMs(spec_backoff_ms(attempt as nat) as u64),
        spec_map_file_retryable(&outcome) && attempt == MAP_FILE_ATTEMPTS ==> (r
            matches RetryStep::Done(res) && res matches Err(e) && e matches ClientError::RetryLimitReached(m)
            && m == map_id),
        !spec_map_file_retryable(&outcome) ==> match outcome {
            FetchOutcome::Success(body) => (r matches RetryStep::Done(res) && res matches Ok(b)
                && b == body),
            FetchOutcome::Status(e) => (r matches RetryStep::Done(res) && res matches Err(c)
                && c matches ClientError::Status(se) && se == e),
            FetchOutcome::Failed(why) => (r matches RetryStep::Done(res) && res matches Err(c)
                && c matches ClientError::Failed(w) && w == why),
        },
{
    let retry = match &outcome {
        FetchOutcome::Success(body) => is_html_sentinel(body),
        FetchOutcome::Status(e) => e.status == 429,
        FetchOutcome::Failed(_) => false,
    };

    if retry {
        if attempt < MAP_FILE_ATTEMPTS {
            RetryStep::RetryAfterMs(backoff_ms(attempt))
        } else {
            RetryStep::Done(Err(ClientError::RetryLimitReached(map_id)))
        }
    } else {
        match outcome {
            FetchOutcome::Success(body) => RetryStep::Done(Ok(body)),
            FetchOutcome::Status(e) => RetryStep::Done(Err(ClientError::Status(e))),
            FetchOutcome::Failed(why) => RetryStep::Done(Err(ClientError::Failed(why))),
        }
    }
}

} // verus!

