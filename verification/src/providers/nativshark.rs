use vstd::prelude::*;

use super::ProviderData;
use crate::time::Timestamp;

verus! {

/// The cache key under which the login token is kept.
pub const TOKEN_KEY: &'static str = "token";

/// How long a login token is used, in seconds: 28 days. NativShark's tokens are valid for
/// about a month, so they are renewed a little early.
pub const TOKEN_LIFETIME_SECS: i64 = 2419200i64;

/// The URL opened to do reviews unless configured otherwise.
pub fn default_action_url() -> (url: Option<String>)
    ensures
        url matches Some(u) && u@ == "https://app.nativshark.com/"@,
{
    Some("https://app.nativshark.com/".to_owned())
}

/// The number of seconds a NativShark provider keeps its data unless configured otherwise.
pub fn default_cache_expiry() -> (secs: u64)
    ensures
        secs == 300,
{
    crate::cache::default_cache_expiry::<300>()
}

/// A NativShark account, read after logging in with e-mail and password.
#[derive(Clone, Debug, PartialEq)]
pub struct NativSharkProvider {
    pub email: String,
    pub password: String,
    /// URL to open to do reviews
    pub action_url: Option<String>,
    /// How long (in seconds) to cache API results for before fetching fresh data
    pub cache_expiry: u64,
}

/// A cached login token and the (system) time until which it is used.
#[derive(Clone, Debug, PartialEq)]
pub struct TokenCache {
    pub token: String,
    pub expiry: Timestamp,
}

/// The token of the cache, while it has not expired at `now`.
pub open spec fn usable_token(cache: Option<TokenCache>, now: Timestamp) -> Option<String> {
    match cache {
        Some(c) => if now.precedes(c.expiry) {
            Some(c.token)
        } else {
            None
        },
        None => None,
    }
}

/// The cached token to use at `now`; without one, the provider logs in.
pub fn cached_token(cache: Option<TokenCache>, now: &Timestamp) -> (token: Option<String>)
    ensures
        token == usable_token(cache, *now),
{
    match cache {
        Some(c) => if c.expiry.is_after(now) {
            Some(c.token)
        } else {
            None
        },
        None => None,
    }
}

/// The cache entry for a token obtained at `now`: used for the token's lifetime.
pub fn token_cache(token: &String, now: &Timestamp) -> (cache: TokenCache)
    requires
        now.secs + TOKEN_LIFETIME_SECS <= i64::MAX,
    ensures
        cache.token == *token,
        cache.expiry == now.plus_secs(TOKEN_LIFETIME_SECS as int),
{
    TokenCache {
        token: token.clone(),
        expiry: Timestamp { secs: now.secs + TOKEN_LIFETIME_SECS, nanos: now.nanos },
    }
}

/// A token stored at `now` is used by every run before its lifetime is over, and by none
/// after.
pub proof fn law_token_lifetime(token: String, now: Timestamp, later: Timestamp)
    requires
        now.secs + TOKEN_LIFETIME_SECS <= i64::MAX,
        !later.precedes(now),
    ensures
        later.secs < now.secs + TOKEN_LIFETIME_SECS ==> usable_token(
            Some(TokenCache { token, expiry: now.plus_secs(TOKEN_LIFETIME_SECS as int) }),
            later,
        ) == Some(token),
        later.secs >= now.secs + TOKEN_LIFETIME_SECS + 1 ==> usable_token(
            Some(TokenCache { token, expiry: now.plus_secs(TOKEN_LIFETIME_SECS as int) }),
            later,
        ) is None,
{
}

/// An error of NativShark's GraphQL API.
#[derive(Clone, Debug, PartialEq)]
pub struct GraphQlError {
    pub message: String,
}

/// An answer of NativShark's GraphQL API.
#[derive(Clone, Debug, PartialEq)]
pub struct GraphQlResponse<T> {
    pub data: Option<T>,
    pub errors: Option<Vec<GraphQlError>>,
}

/// The outcome of a sign-in.
#[derive(Clone, Debug, PartialEq)]
pub enum SignInResult {
    User { token: String },
    MfaRequired,
}

/// The payload of a sign-in answer.
#[derive(Clone, Debug, PartialEq)]
pub struct SignInPayload {
    pub errors: Option<Vec<GraphQlError>>,
    pub result: Option<SignInResult>,
}

/// The data of a sign-in answer.
#[derive(Clone, Debug, PartialEq)]
pub struct SignInData {
    pub sign_in: Option<SignInPayload>,
}

/// The token that a sign-in answer grants: none when the answer carries errors at the top
/// level (even an empty list) or in its payload (a non-empty list), has no payload, has
/// no result, or asks for multi-factor authentication, which is not supported.
pub open spec fn granted_token(response: GraphQlResponse<SignInData>) -> Option<String> {
    if response.errors is Some {
        None
    } else {
        match response.data {
            Some(SignInData { sign_in: Some(payload) }) => {
                if payload.errors matches Some(e) && e.len() > 0 {
                    None
                } else {
                    match payload.result {
                        Some(SignInResult::User { token }) => Some(token),
                        _ => None,
                    }
                }
            },
            _ => None,
        }
    }
}

/// The token that a sign-in answer grants, if any.
pub fn login_token(response: GraphQlResponse<SignInData>) -> (token: Option<String>)
    ensures
        token == granted_token(response),
{
    if response.errors.is_some() {
        return None;
    }
    let sign_in = match response.data {
        Some(SignInData { sign_in: Some(payload) }) => payload,
        _ => {
            return None;
        },
    };
    match &sign_in.errors {
        Some(errors) => {
            if errors.len() > 0 {
                return None;
            }
        },
        None => {},
    }
    match sign_in.result {
        Some(SignInResult::User { token }) => Some(token),
        _ => None,
    }
}

/// The reviews that remain for today.
#[derive(Clone, Debug, PartialEq)]
pub struct ReviewCounts {
    pub lesson: i32,
    pub kanji: i32,
    pub vocabulary: i32,
}

/// The system reviews of today.
#[derive(Clone, Debug, PartialEq)]
pub struct SystemReviews {
    pub remaining: ReviewCounts,
}

/// Today's studies.
#[derive(Clone, Debug, PartialEq)]
pub struct GetTodaysStudies {
    pub system_reviews: SystemReviews,
}

/// The data of a studies answer.
#[derive(Clone, Debug, PartialEq)]
pub struct StudiesData {
    pub get_todays_studies: GetTodaysStudies,
}

/// The studies of an answer: none when it carries errors (the token was refused).
pub fn studies_of(response: GraphQlResponse<StudiesData>) -> (studies: Option<StudiesData>)
    ensures
        response.errors is Some ==> studies is None,
        response.errors is None ==> studies == response.data,
{
    if response.errors.is_some() {
        None
    } else {
        response.data
    }
}

/// The number of reviews that remain: lessons, kanji and vocabulary together; none
/// without studies.
pub open spec fn remaining_total(studies: Option<StudiesData>) -> int {
    match studies {
        Some(s) => s.get_todays_studies.system_reviews.remaining.lesson
            + s.get_todays_studies.system_reviews.remaining.kanji
            + s.get_todays_studies.system_reviews.remaining.vocabulary,
        None => 0,
    }
}

/// The counts add up within `i32`, lessons and kanji first, then vocabulary.
pub open spec fn remaining_addable(studies: Option<StudiesData>) -> bool {
    match studies {
        Some(s) => {
            let r = s.get_todays_studies.system_reviews.remaining;
            &&& i32::MIN <= r.lesson + r.kanji <= i32::MAX
            &&& i32::MIN <= r.lesson + r.kanji + r.vocabulary <= i32::MAX
        },
        None => true,
    }
}

/// The provider data of today's studies. The three counts must add up within `i32`.
pub fn nativshark_data(studies: &Option<StudiesData>) -> (data: ProviderData)
    requires
        remaining_addable(*studies),
    ensures
        data.review_count == remaining_total(*studies),
        studies matches Some(s) ==> data.review_count
            == s.get_todays_studies.system_reviews.remaining.lesson
            + s.get_todays_studies.system_reviews.remaining.kanji
            + s.get_todays_studies.system_reviews.remaining.vocabulary,
        studies is None ==> data.review_count == 0,
        data.next_review is None,
        data.action_url is None,
{
    let count = match studies {
        Some(s) => {
            let r = &s.get_todays_studies.system_reviews.remaining;
            r.lesson + r.kanji + r.vocabulary
        },
        None => 0,
    };
    ProviderData { review_count: count, next_review: None, action_url: None }
}

/// NativShark's count is the remaining lessons, kanji and vocabulary added together, for
/// all counts: each of the three adds to the total on its own, whatever the other two
/// are; without studies the count is zero.
pub proof fn law_remaining_sum(studies: Option<StudiesData>, count: int)
    requires
        count == remaining_total(studies),
    ensures
        studies matches Some(s) ==> {
            let r = s.get_todays_studies.system_reviews.remaining;
            &&& count - r.kanji - r.vocabulary == r.lesson
            &&& count - r.lesson - r.vocabulary == r.kanji
            &&& count - r.lesson - r.kanji == r.vocabulary
        },
        studies is None ==> count == 0,
{
}

/// What to do after asking for today's studies.
#[derive(Clone, Debug, PartialEq)]
pub enum AfterStudies {
    /// The token was refused: log in again and retry with the new token
    Relogin,
    /// Report these data
    Finish(ProviderData),
}

/// After the studies answer: a refused token is renewed once; otherwise (or when the
/// retry is refused as well) the studies, or no reviews, are reported.
pub fn after_studies(studies: &Option<StudiesData>, retried: bool) -> (next: AfterStudies)
    requires
        remaining_addable(*studies),
    ensures
        studies is None && !retried ==> next is Relogin,
        studies is Some || retried ==> (next matches AfterStudies::Finish(d) && d.review_count
            == remaining_total(*studies) && d.next_review is None && d.action_url is None),
{
    if studies.is_none() && !retried {
        AfterStudies::Relogin
    } else {
        AfterStudies::Finish(nativshark_data(studies))
    }
}

/// What to do after logging in again.
#[derive(Clone, Debug, PartialEq)]
pub enum AfterRelogin {
    /// Store the new token and ask for the studies with it
    Retry(String),
    /// The login failed: report no reviews
    Finish(ProviderData),
}

/// After logging in again: retry with the granted token, or report no reviews.
pub fn after_relogin(token: Option<String>) -> (next: AfterRelogin)
    ensures
        token matches Some(t) ==> next == AfterRelogin::Retry(t),
        token is None ==> (next matches AfterRelogin::Finish(d) && d.review_count == 0
            && d.next_review is None && d.action_url is None),
{
    match token {
        Some(t) => AfterRelogin::Retry(t),
        None => AfterRelogin::Finish(super::empty_data(None)),
    }
}

} // verus!
