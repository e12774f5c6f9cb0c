use vstd::prelude::*;

use super::ProviderData;
use crate::time::{parse_rfc3339, rfc3339_instant, Timestamp};

verus! {

/// The API revision to request.
pub const WANIKANI_REVISION: &'static str = "20170710";

/// The address of the summary of an account.
pub const SUMMARY_URL: &'static str = "https://api.wanikani.com/v2/summary";

/// The URL opened to do reviews unless configured otherwise.
pub fn default_action_url() -> (url: Option<String>)
    ensures
        url matches Some(u) && u@ == "https://www.wanikani.com/"@,
{
    Some("https://www.wanikani.com/".to_owned())
}

/// The number of seconds a WaniKani provider keeps its data unless configured otherwise.
pub fn default_cache_expiry() -> (secs: u64)
    ensures
        secs == 300,
{
    crate::cache::default_cache_expiry::<300>()
}

/// A WaniKani account.
#[derive(Clone, Debug, PartialEq)]
pub struct WaniKaniProvider {
    pub api_key: String,
    /// URL to open to do reviews
    pub action_url: Option<String>,
    /// How long (in seconds) to cache API results for before fetching fresh data
    pub cache_expiry: u64,
}

/// The reviews that become available at one time.
#[derive(Clone, Debug, PartialEq)]
pub struct ReviewData {
    /// When the reviews become available (ISO 8601)
    pub available_at: String,
    /// The subjects to review
    pub subject_ids: Vec<i32>,
}

/// The summary of an account.
#[derive(Clone, Debug, PartialEq)]
pub struct SummaryData {
    /// The reviews available now and in each of the next 24 hours
    pub reviews: Vec<ReviewData>,
    /// When the next reviews become available (ISO 8601)
    pub next_reviews_at: String,
}

/// WaniKani's summary answer.
#[derive(Clone, Debug, PartialEq)]
pub struct SummaryResponse {
    pub data: SummaryData,
}

/// A cached summary with the validators WaniKani sent with it, so that the next request
/// can ask whether it changed (`If-None-Match`, `If-Modified-Since`) instead of
/// downloading it again.
#[derive(Clone, Debug, PartialEq)]
pub struct CachedSummary {
    pub summary: SummaryResponse,
    pub etag: Option<String>,
    pub last_modified: Option<String>,
    pub expires_at: Timestamp,
}

/// The summary can be turned into provider data: a summary that lists reviews names its
/// next reviews in a date-time that parses.
pub open spec fn summary_readable(summary: SummaryResponse) -> bool {
    summary.data.reviews.len() > 0 ==> rfc3339_instant(summary.data.next_reviews_at@) is Some
}

/// The review count and next review of a summary: the subjects available now and the
/// time of the next reviews; nothing at all when the summary lists no reviews.
pub open spec fn summary_data_of(summary: SummaryResponse) -> (int, Option<Timestamp>) {
    if summary.data.reviews.len() == 0 {
        (0, None)
    } else {
        (
            summary.data.reviews[0].subject_ids.len() as i32 as int,
            rfc3339_instant(summary.data.next_reviews_at@),
        )
    }
}

/// The provider data of a summary; the count of subjects is cut to 32 bits.
pub fn build_provider_data(summary: &SummaryResponse) -> (data: ProviderData)
    requires
        summary_readable(*summary),
    ensures
        (data.review_count as int, data.next_review) == summary_data_of(*summary),
        summary.data.reviews.len() > 0 ==> data.next_review == rfc3339_instant(
            summary.data.next_reviews_at@,
        ),
        summary.data.reviews.len() > 0 ==> data.review_count
            == summary.data.reviews[0].subject_ids.len() as i32,
        summary.data.reviews.len() == 0 ==> data.review_count == 0 && data.next_review is None,
        data.action_url is None,
{
    if summary.data.reviews.len() == 0 {
        return ProviderData { review_count: 0, next_review: None, action_url: None };
    }
    let review_count = summary.data.reviews[0].subject_ids.len();
    ProviderData {
        review_count: review_count as i32,
        next_review: parse_rfc3339(summary.data.next_reviews_at.as_str()),
        action_url: None,
    }
}

/// A summary that lists reviews reports its next reviews at the instant `next_reviews_at`
/// names, however many subjects are available now (none included), and counts the
/// subjects of its first, current, bucket; two such summaries with the same
/// `next_reviews_at` report the same next review. A summary without reviews reports no
/// reviews and no next review.
pub proof fn law_summary_data(
    summary: SummaryResponse,
    count: int,
    next: Option<Timestamp>,
    other: SummaryResponse,
    other_next: Option<Timestamp>,
)
    requires
        summary_readable(summary),
        (count, next) == summary_data_of(summary),
        other_next == summary_data_of(other).1,
    ensures
        summary.data.reviews.len() > 0 ==> next == rfc3339_instant(summary.data.next_reviews_at@)
            && next is Some,
        summary.data.reviews.len() > 0 ==> count == summary.data.reviews[0].subject_ids.len() as i32,
        summary.data.reviews.len() == 0 ==> count == 0 && next is None,
        summary.data.reviews.len() > 0 && other.data.reviews.len() > 0
            && other.data.next_reviews_at@ == summary.data.next_reviews_at@ ==> other_next == next,
{
}

/// The provider data of a summary, or `None` when the summary lists reviews but its
/// date-time of the next reviews does not parse.
pub fn try_build_provider_data(summary: &SummaryResponse) -> (data: Option<ProviderData>)
    ensures
        summary_readable(*summary) ==> (data matches Some(d) && (d.review_count as int, d.next_review)
            == summary_data_of(*summary) && d.action_url is None),
        !summary_readable(*summary) ==> data is None,
{
    if summary.data.reviews.len() > 0 {
        if parse_rfc3339(summary.data.next_reviews_at.as_str()).is_none() {
            return None;
        }
    }
    Some(build_provider_data(summary))
}

/// The summary of the cache entry while it is fresh at `now`; otherwise the entry (if
/// any) comes back, for its validators.
pub fn fresh_summary(cached: Option<CachedSummary>, now: &Timestamp) -> (out: Result<
    SummaryResponse,
    Option<CachedSummary>,
>)
    ensures
        match cached {
            Some(c) => if now.precedes(c.expires_at) {
                out == Ok::<SummaryResponse, Option<CachedSummary>>(c.summary)
            } else {
                out == Err::<SummaryResponse, Option<CachedSummary>>(Some(c))
            },
            None => out == Err::<SummaryResponse, Option<CachedSummary>>(None),
        },
{
    match cached {
        Some(c) => if c.expires_at.is_after(now) {
            Ok(c.summary)
        } else {
            Err(Some(c))
        },
        None => Err(None),
    }
}

/// The validators to send with a request: the `ETag` and `Last-Modified` of the cached
/// summary, where it has them.
pub fn conditional_headers(cached: &Option<CachedSummary>) -> (headers: (
    Option<String>,
    Option<String>,
))
    ensures
        match cached {
            Some(c) => headers.0 == c.etag && headers.1 == c.last_modified,
            None => headers.0 is None && headers.1 is None,
        },
{
    match cached {
        Some(c) => (c.etag.clone(), c.last_modified.clone()),
        None => (None, None),
    }
}

/// After WaniKani answers that the summary has not changed: the cached entry with the same
/// summary and validators, kept for another `ttl_secs` seconds from `now`. A cached entry
/// must exist, since only a request with its validators gets that answer.
pub fn not_modified_entry(cached: Option<CachedSummary>, now: Timestamp, ttl_secs: i64) -> (entry: CachedSummary)
    requires
        cached is Some,
        now.is_regular(),
        0 <= ttl_secs <= crate::time::MAX_SPAN_SECS,
        now.secs + ttl_secs <= crate::time::MAX_INSTANT_SECS,
    ensures
        entry.summary == cached->0.summary,
        entry.etag == cached->0.etag,
        entry.last_modified == cached->0.last_modified,
        entry.expires_at == now.plus_secs(ttl_secs as int),
{
    let c = cached.unwrap();
    CachedSummary { expires_at: crate::time::expiry_after(now, ttl_secs), ..c }
}

/// The cache entry for a newly downloaded summary and its validators, kept for
/// `ttl_secs` seconds from `now`.
pub fn fetched_entry(
    summary: SummaryResponse,
    etag: Option<String>,
    last_modified: Option<String>,
    now: Timestamp,
    ttl_secs: i64,
) -> (entry: CachedSummary)
    requires
        now.is_regular(),
        0 <= ttl_secs <= crate::time::MAX_SPAN_SECS,
        now.secs + ttl_secs <= crate::time::MAX_INSTANT_SECS,
    ensures
        entry.summary == summary,
        entry.etag == etag,
        entry.last_modified == last_modified,
        entry.expires_at == now.plus_secs(ttl_secs as int),
{
    CachedSummary { summary, etag, last_modified, expires_at: crate::time::expiry_after(now, ttl_secs) }
}

/// How WaniKani answered a request for the summary.
#[derive(Clone, Copy, Debug, PartialEq, Eq, Structural)]
pub enum SummaryAnswer {
    /// 304: the cached summary is still current
    NotModified,
    /// A client or server error
    Failed,
    /// A new summary comes with the answer
    Changed,
}

/// The kind of an answer, by its status code.
pub fn summary_answer(status: u16) -> (answer: SummaryAnswer)
    ensures
        status == 304 ==> answer == SummaryAnswer::NotModified,
        status != 304 && 400 <= status <= 599 ==> answer == SummaryAnswer::Failed,
        status != 304 && !(400 <= status <= 599) ==> answer == SummaryAnswer::Changed,
{
    if status == 304 {
        SummaryAnswer::NotModified
    } else if super::is_error_status(status) {
        SummaryAnswer::Failed
    } else {
        SummaryAnswer::Changed
    }
}

/// What a run does with WaniKani's answer to a request for the summary.
#[derive(Clone, Debug, PartialEq)]
pub enum SummaryStep {
    /// The summary has not changed: the cached entry, kept for another time to live, is
    /// written back and its summary used
    Refresh(CachedSummary),
    /// The request failed: the run ends with its error, and nothing is written
    Fail,
    /// A new summary comes with the answer: it is read, cached and used
    Download,
}

/// The step that the status of WaniKani's answer calls for, at `now`, with the entry that
/// was cached (whose validators went with the request) and the time to live. A "not
/// modified" answer comes only to a request that carried validators, so a cached entry
/// must exist for it.
pub fn on_summary_answer(status: u16, cached: Option<CachedSummary>, now: Timestamp, ttl_secs: i64) -> (step: SummaryStep)
    requires
        status == 304 ==> {
            &&& cached is Some
            &&& now.is_regular()
            &&& 0 <= ttl_secs <= crate::time::MAX_SPAN_SECS
            &&& now.secs + ttl_secs <= crate::time::MAX_INSTANT_SECS
        },
    ensures
        status == 304 ==> (step matches SummaryStep::Refresh(e) && e.summary == cached->0.summary
            && e.etag == cached->0.etag && e.last_modified == cached->0.last_modified
            && e.expires_at == now.plus_secs(ttl_secs as int)),
        status != 304 && 400 <= status <= 599 ==> step == SummaryStep::Fail,
        status != 304 && !(400 <= status <= 599) ==> step == SummaryStep::Download,
{
    match summary_answer(status) {
        SummaryAnswer::NotModified => SummaryStep::Refresh(not_modified_entry(cached, now, ttl_secs)),
        SummaryAnswer::Failed => SummaryStep::Fail,
        SummaryAnswer::Changed => SummaryStep::Download,
    }
}

} // verus!
