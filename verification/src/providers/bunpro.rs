use vstd::prelude::*;

use super::ProviderData;
use crate::time::{unix_instant, utc_from_unix_secs};

verus! {

/// The URL opened to do reviews unless configured otherwise.
pub fn default_action_url() -> (url: Option<String>)
    ensures
        url matches Some(u) && u@ == "https://bunpro.jp/"@,
{
    Some("https://bunpro.jp/".to_owned())
}

/// The number of seconds a Bunpro provider keeps its data unless configured otherwise.
pub fn default_cache_expiry() -> (secs: u64)
    ensures
        secs == 300,
{
    crate::cache::default_cache_expiry::<300>()
}

/// A Bunpro account.
#[derive(Clone, Debug, PartialEq)]
pub struct BunproProvider {
    pub api_key: String,
    /// URL to open to do reviews
    pub action_url: Option<String>,
    /// How long (in seconds) to cache API results for before fetching fresh data
    pub cache_expiry: u64,
}

/// What Bunpro's study queue reports.
#[derive(Clone, Debug, PartialEq)]
pub struct StudyQueueData {
    /// Number of reviews available
    pub reviews_available: i32,
    /// Number of reviews available in the next hour
    pub reviews_available_next_hour: i32,
    /// Number of reviews available in the next day
    pub reviews_available_next_day: i32,
    /// When the next review is available, in seconds since the Unix epoch
    pub next_review_date: i64,
}

/// The address of the study queue of an API key.
pub open spec fn study_queue_url_of(api_key: Seq<char>) -> Seq<char> {
    "https://bunpro.jp/api/user/"@ + api_key + "/study_queue"@
}

/// The address of the study queue of an API key.
pub fn study_queue_url(api_key: &str) -> (url: String)
    ensures
        url@ == study_queue_url_of(api_key@),
{
    let url = "https://bunpro.jp/api/user/".to_owned();
    let url = url.concat(api_key);
    url.concat("/study_queue")
}

/// The provider data of a study queue: the reviews available now and the instant of
/// the next review. The date of the next review must lie in the calendar's range.
pub fn bunpro_provider_data(data: &StudyQueueData) -> (out: ProviderData)
    requires
        unix_instant(data.next_review_date as int) is Some,
    ensures
        out.review_count == data.reviews_available,
        out.next_review == unix_instant(data.next_review_date as int),
        out.action_url is None,
{
    let next = utc_from_unix_secs(data.next_review_date);
    ProviderData { review_count: data.reviews_available, next_review: next, action_url: None }
}

} // verus!
