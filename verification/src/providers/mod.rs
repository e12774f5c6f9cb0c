use vstd::prelude::*;

use crate::time::Timestamp;

pub mod anki;
pub mod bunpro;
pub mod http;
pub mod kamesame;
pub mod nativshark;
pub mod wanikani;

verus! {

/// What a provider reports about its reviews.
#[derive(Clone, Debug, PartialEq)]
pub struct ProviderData {
    /// Number of reviews available
    pub review_count: i32,
    /// When the next review becomes available; `None` where the provider does not say
    pub next_review: Option<Timestamp>,
    /// URL to open to act on the reviews; `None` where the provider has none configured
    pub action_url: Option<String>,
}

/// No reviews, no next review, and the given URL.
pub fn empty_data(action_url: Option<String>) -> (data: ProviderData)
    ensures
        data.review_count == 0,
        data.next_review is None,
        data.action_url == action_url,
{
    ProviderData { review_count: 0, next_review: None, action_url }
}

/// The data with its URL replaced by the provider's configured one: whatever was
/// cached or fetched, the URL shown is always the one the configuration gives.
pub fn with_action_url(data: ProviderData, action_url: &Option<String>) -> (out: ProviderData)
    ensures
        out.review_count == data.review_count,
        out.next_review == data.next_review,
        out.action_url == *action_url,
{
    let url = action_url.clone();
    ProviderData { action_url: url, ..data }
}

/// The status code reports success (200 to 299).
pub fn is_success(status: u16) -> (success: bool)
    ensures
        success == (200 <= status <= 299),
{
    200 <= status && status <= 299
}

/// The status code reports an error of the client (400 to 499) or of the server (500 to
/// 599); a request answered so counts as failed.
pub fn is_error_status(status: u16) -> (error: bool)
    ensures
        error == (400 <= status <= 599),
{
    400 <= status && status <= 599
}

} // verus!
