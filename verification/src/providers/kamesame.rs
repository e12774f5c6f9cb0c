use vstd::prelude::*;

use super::{empty_data, ProviderData};
use crate::cache::{cached_if_fresh, fresh_data, keeps_for, CachedEntry};
use crate::time::Timestamp;

verus! {

/// The URL opened to do reviews unless configured otherwise.
pub fn default_action_url() -> (url: Option<String>)
    ensures
        url matches Some(u) && u@ == "https://www.kamesame.com/"@,
{
    Some("https://www.kamesame.com/".to_owned())
}

/// The number of seconds a KameSame provider keeps its data unless configured otherwise.
pub fn default_cache_expiry() -> (secs: u64)
    ensures
        secs == 300,
{
    crate::cache::default_cache_expiry::<300>()
}

/// A KameSame account, read after logging in with e-mail and password.
#[derive(Clone, Debug, PartialEq)]
pub struct KameSameProvider {
    pub email: String,
    pub password: String,
    /// URL to open to do reviews
    pub action_url: Option<String>,
    /// How long (in seconds) to cache API results for before fetching fresh data
    pub cache_expiry: u64,
}

/// The cache key under which the login session is kept.
pub const SESSION_KEY: &'static str = "session";

/// The name of KameSame's session cookie.
pub const SESSION_COOKIE: &'static str = "_kamesame_session";

/// Seconds in one day.
pub const SECS_PER_DAY: i64 = 86400i64;

/// A cached login session and the (system) time until which it may be used.
#[derive(Clone, Debug, PartialEq)]
pub struct KameSameCache {
    pub session: String,
    pub session_expiry: Timestamp,
}

/// There is a cached session and it has not yet expired at `now`.
pub open spec fn session_valid(cache: Option<KameSameCache>, now: Timestamp) -> bool {
    match cache {
        Some(c) => now.precedes(c.session_expiry),
        None => false,
    }
}

/// Whether a cached session can be used at `now`; without one, the provider logs in.
pub fn has_session(cache: &Option<KameSameCache>, now: &Timestamp) -> (valid: bool)
    ensures
        valid == session_valid(*cache, *now),
{
    match cache {
        Some(c) => c.session_expiry.is_after(now),
        None => false,
    }
}

/// The cookie `_kamesame_session=<session>` that carries a session.
pub open spec fn session_cookie_of(session: Seq<char>) -> Seq<char> {
    SESSION_COOKIE@ + "="@ + session
}

/// The session cookie to send: that of the cached session while it is valid, else none.
pub fn session_cookie(cache: &Option<KameSameCache>, now: &Timestamp) -> (cookie: Option<String>)
    ensures
        session_valid(*cache, *now) ==> (cookie matches Some(c) && c@ == session_cookie_of(
            cache->0.session@,
        )),
        !session_valid(*cache, *now) ==> cookie is None,
{
    if has_session(cache, now) {
        match cache {
            Some(c) => {
                let cookie = SESSION_COOKIE.to_owned();
                let cookie = cookie.concat("=");
                Some(cookie.concat(c.session.as_str()))
            },
            None => None,
        }
    } else {
        None
    }
}

/// What a run of the KameSame provider does first.
#[derive(Clone, Debug, PartialEq)]
pub enum KameSameAction {
    /// Answer with the data an earlier run cached; KameSame is not asked
    UseCached(ProviderData),
    /// Ask for the status, sending the cached session's cookie
    FetchStatus,
    /// Log in, then ask for the status
    Login,
}

/// The first step of a run at `now`: the cached data while it is fresh; else the status,
/// asked with the cached session while that is valid, or after logging in.
pub open spec fn kamesame_action_of(
    data: Option<CachedEntry<ProviderData>>,
    session: Option<KameSameCache>,
    now: Timestamp,
) -> KameSameAction {
    match fresh_data(data, now) {
        Some(d) => KameSameAction::UseCached(d),
        None => if session_valid(session, now) {
            KameSameAction::FetchStatus
        } else {
            KameSameAction::Login
        },
    }
}

/// What a run does first, given the cached data, the cached session and the time.
pub fn kamesame_start(
    data: Option<CachedEntry<ProviderData>>,
    session: &Option<KameSameCache>,
    now: &Timestamp,
) -> (action: KameSameAction)
    ensures
        action == kamesame_action_of(data, *session, *now),
{
    match cached_if_fresh(data, *now) {
        Some(d) => KameSameAction::UseCached(d),
        None => if has_session(session, now) {
            KameSameAction::FetchStatus
        } else {
            KameSameAction::Login
        },
    }
}

/// What KameSame answers to a login.
#[derive(Clone, Debug, PartialEq)]
pub struct LoginResponseBody {
    pub error_messages: Vec<String>,
}

/// A login failed when the request did not succeed or the answer lists an error.
pub fn login_failed(success: bool, response: &LoginResponseBody) -> (failed: bool)
    ensures
        failed == (!success || response.error_messages@.len() > 0),
{
    !success || response.error_messages.len() > 0
}

/// How a run goes on after a login.
#[derive(Clone, Debug, PartialEq)]
pub enum KameSameLogin {
    /// The login failed: the run answers with this data (no reviews), which is not cached
    Refused(ProviderData),
    /// The login succeeded: the session it sets is cached and the status is asked for
    LoggedIn,
}

/// The step after a login: a failed login ends the run with no reviews and the provider's
/// URL; a successful one goes on to the status.
pub fn after_kamesame_login(success: bool, response: &LoginResponseBody, action_url: &Option<String>) -> (next: KameSameLogin)
    ensures
        (!success || response.error_messages@.len() > 0) ==> next == KameSameLogin::Refused(
            (ProviderData { review_count: 0, next_review: None, action_url: *action_url }),
        ),
        (success && response.error_messages@.len() == 0) ==> next == KameSameLogin::LoggedIn,
{
    if login_failed(success, response) {
        KameSameLogin::Refused(empty_data(action_url.clone()))
    } else {
        KameSameLogin::LoggedIn
    }
}

/// When the session cookie that a login sets expires.
#[derive(Clone, Debug, PartialEq)]
pub enum CookieExpiry {
    /// At the given (system) time
    At(Timestamp),
    /// With the browser session
    Session,
    /// The cookie gives no expiry
    Unset,
}

/// The instant one day before `now`.
pub open spec fn a_day_before(now: Timestamp) -> Timestamp {
    Timestamp { secs: (now.secs - SECS_PER_DAY) as i64, nanos: now.nanos }
}

/// The session to cache after a login: the cookie's value, usable until the cookie's
/// expiry; a cookie without a date of expiry is taken as expired already (a day before
/// `now`), so that the next run logs in again. `now` must lie a day past the earliest
/// system time.
pub fn session_from_cookie(value: String, expires: CookieExpiry, now: Timestamp) -> (cache: KameSameCache)
    requires
        now.secs >= i64::MIN + SECS_PER_DAY,
    ensures
        cache.session == value,
        cache.session_expiry == (match expires {
            CookieExpiry::At(t) => t,
            _ => a_day_before(now),
        }),
{
    let expiry = match expires {
        CookieExpiry::At(t) => t,
        _ => Timestamp { secs: now.secs - SECS_PER_DAY, nanos: now.nanos },
    };
    KameSameCache { session: value, session_expiry: expiry }
}

/// What `cookie::Cookie::parse` makes of a `Set-Cookie` header: the cookie's value and
/// its expiry, or `None` where the header is refused.
pub uninterp spec fn set_cookie_parse(header: Seq<char>) -> Option<(Seq<char>, CookieExpiry)>;

/// `cookie::Cookie::parse(header)`, read through `Cookie::value` and `Cookie::expires`:
/// the value of the cookie that a `Set-Cookie` header sets and when it expires (a date
/// is converted to seconds and nanoseconds since the Unix epoch, as `SystemTime` holds
/// it). Which headers parse, and to what, is named, not stated.
#[verifier::external_body]
fn parse_set_cookie(header: &str) -> (cookie: Option<(String, CookieExpiry)>)
    ensures
        match (cookie, set_cookie_parse(header@)) {
            (Some((v, e)), Some((w, f))) => v@ == w && e == f,
            (None, None) => true,
            _ => false,
        },
{
    match cookie::Cookie::parse(header) {
        Ok(c) => Some((c.value().to_string(), match c.expires() {
            Some(cookie::Expiration::DateTime(t)) => CookieExpiry::At(Timestamp { secs: t.unix_timestamp(), nanos: t.nanosecond() }),
            Some(cookie::Expiration::Session) => CookieExpiry::Session,
            None => CookieExpiry::Unset,
        })),
        Err(_) => None,
    }
}

/// The expiry of a cached session: the cookie's date, or a day before `now` for a
/// cookie without one.
pub open spec fn session_expiry_of(expires: CookieExpiry, now: Timestamp) -> Timestamp {
    match expires {
        CookieExpiry::At(t) => t,
        _ => a_day_before(now),
    }
}

/// The session that the `Set-Cookie` header of a successful login sets, cached from
/// `now`. The header must parse as a cookie.
pub fn session_from_set_cookie(header: &str, now: Timestamp) -> (cache: KameSameCache)
    requires
        set_cookie_parse(header@) is Some,
        now.secs >= i64::MIN + SECS_PER_DAY,
    ensures
        set_cookie_parse(header@) matches Some((value, expires)) && cache.session@ == value
            && cache.session_expiry == session_expiry_of(expires, now),
{
    match parse_set_cookie(header) {
        Some((value, expires)) => session_from_cookie(value, expires, now),
        None => KameSameCache { session: String::new(), session_expiry: now },
    }
}

/// The session that a `Set-Cookie` header sets, or `None` when the header does not parse
/// as a cookie.
pub fn try_session_from_set_cookie(header: &str, now: Timestamp) -> (cache: Option<KameSameCache>)
    requires
        now.secs >= i64::MIN + SECS_PER_DAY,
    ensures
        set_cookie_parse(header@) is None ==> cache is None,
        set_cookie_parse(header@) matches Some((value, expires)) ==> (cache matches Some(k)
            && k.session@ == value && k.session_expiry == session_expiry_of(expires, now)),
{
    match parse_set_cookie(header) {
        Some(_) => Some(session_from_set_cookie(header, now)),
        None => None,
    }
}

/// The review counts of KameSame's status.
#[derive(Clone, Debug, PartialEq)]
pub struct ReviewsStatus {
    pub ready_for_review: i32,
    pub next_hour: i32,
    pub next_day: i32,
}

/// KameSame's status answer.
#[derive(Clone, Debug, PartialEq)]
pub struct StatusResponse {
    pub reviews_status: ReviewsStatus,
}

/// The provider data of KameSame's status: the reviews ready now, and the URL.
pub fn kamesame_data(status: &StatusResponse, action_url: &Option<String>) -> (data: ProviderData)
    ensures
        data.review_count == status.reviews_status.ready_for_review,
        data.next_review is None,
        data.action_url == *action_url,
{
    ProviderData {
        review_count: status.reviews_status.ready_for_review,
        next_review: None,
        action_url: action_url.clone(),
    }
}

/// KameSame's status is asked at most once per cache window: once a run at `written` has
/// cached `data` in an entry that keeps it for `ttl_secs` seconds (`cache_expiry`, by
/// default 300; the entry `entry_after_fetch` gives), every later run before `written`
/// plus `ttl_secs` answers with `data` and asks KameSame nothing, whatever session is
/// cached; once the entry has expired, the next run asks again.
pub proof fn law_status_cached(
    entry: CachedEntry<ProviderData>,
    data: ProviderData,
    session: Option<KameSameCache>,
    written: Timestamp,
    ttl_secs: int,
    now: Timestamp,
)
    requires
        keeps_for(entry, data, written, ttl_secs),
        !now.precedes(written),
    ensures
        now.secs < written.secs + ttl_secs ==> kamesame_action_of(Some(entry), session, now)
            == KameSameAction::UseCached(data),
        !now.precedes(entry.expires_at) ==> kamesame_action_of(Some(entry), session, now)
            != KameSameAction::UseCached(data),
{
}

/// A session written by a login at `now` with a cookie that expires at `at` is used by
/// a later run at `later` exactly while `later` comes before `at`; a cookie without a
/// date gives a session that no later run uses.
pub proof fn law_session_reuse(value: String, expires: CookieExpiry, now: Timestamp, later: Timestamp)
    requires
        now.secs >= i64::MIN + SECS_PER_DAY,
        !later.precedes(now),
    ensures
        expires matches CookieExpiry::At(at) ==> (session_valid(
            Some(KameSameCache { session: value, session_expiry: at }),
            later,
        ) == later.precedes(at)),
        !(expires is At) ==> !session_valid(
            Some(KameSameCache { session: value, session_expiry: a_day_before(now) }),
            later,
        ),
{
}

} // verus!
