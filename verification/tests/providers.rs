use srscheck::cache::CachedEntry;
use srscheck::providers::kamesame::{after_kamesame_login, kamesame_start, try_session_from_set_cookie, KameSameAction, KameSameLogin};
use srscheck::providers::wanikani::{on_summary_answer, SummaryStep};
use srscheck::providers::wanikani::{summary_answer, SummaryAnswer};
use srscheck::providers::{is_error_status, is_success};
use srscheck::providers::anki::{anki_provider_data, anki_review_count, deck_stats_request, DeckStatsData, DeckStatsResponse};
use srscheck::providers::bunpro::{bunpro_provider_data, study_queue_url, StudyQueueData};
use srscheck::providers::kamesame::{
    has_session, kamesame_data, login_failed, session_cookie, session_from_cookie, CookieExpiry, KameSameCache,
    LoginResponseBody, ReviewsStatus, StatusResponse,
};
use srscheck::providers::nativshark::{
    after_relogin, after_studies, cached_token, login_token, nativshark_data, studies_of, token_cache, AfterRelogin,
    AfterStudies, GetTodaysStudies, GraphQlError, GraphQlResponse, ReviewCounts, SignInData, SignInPayload,
    SignInResult, StudiesData, SystemReviews, TokenCache, TOKEN_KEY,
};
use srscheck::providers::wanikani::{
    build_provider_data, conditional_headers, fetched_entry, fresh_summary, not_modified_entry, try_build_provider_data,
    CachedSummary, ReviewData, SummaryData, SummaryResponse,
};
use srscheck::providers::{empty_data, with_action_url, ProviderData};
use srscheck::providers::{anki, bunpro, kamesame, nativshark, wanikani};
use srscheck::settings::default_review_threshold;
use srscheck::time::Timestamp;

fn at(secs: i64) -> Timestamp {
    Timestamp { secs, nanos: 0 }
}

fn deck(review_count: i32, learn_count: i32) -> DeckStatsData {
    DeckStatsData {
        deck_id: 1,
        name: "Japanese".to_string(),
        learn_count,
        new_count: 20,
        review_count,
        total_in_deck: 1000,
    }
}

#[test]
fn defaults() {
    assert_eq!(bunpro::default_action_url(), Some("https://bunpro.jp/".to_string()));
    assert_eq!(kamesame::default_action_url(), Some("https://www.kamesame.com/".to_string()));
    assert_eq!(nativshark::default_action_url(), Some("https://app.nativshark.com/".to_string()));
    assert_eq!(wanikani::default_action_url(), Some("https://www.wanikani.com/".to_string()));
    assert_eq!(anki::default_cache_expiry(), 10);
    assert_eq!(bunpro::default_cache_expiry(), 300);
    assert_eq!(nativshark::default_cache_expiry(), 300);
    assert_eq!(wanikani::default_cache_expiry(), 300);
    assert_eq!(kamesame::default_cache_expiry(), 300);
    assert_eq!(default_review_threshold(), 100);
    assert_eq!(TOKEN_KEY, "token");
}

#[test]
fn action_url_replaces_the_cached_one() {
    let data = ProviderData { review_count: 4, next_review: Some(at(9)), action_url: Some("old".to_string()) };
    let data = with_action_url(data, &Some("https://bunpro.jp/".to_string()));
    assert_eq!(data.review_count, 4);
    assert_eq!(data.next_review, Some(at(9)));
    assert_eq!(data.action_url, Some("https://bunpro.jp/".to_string()));
    let data = with_action_url(data, &None);
    assert_eq!(data.action_url, None);
    assert_eq!(empty_data(None), ProviderData { review_count: 0, next_review: None, action_url: None });
}

#[test]
fn anki_request_asks_for_one_deck() {
    let request = deck_stats_request(&"Japanese::Kanji".to_string(), &Some("key".to_string()));
    assert_eq!(request.action, "getDeckStats");
    assert_eq!(request.version, 6);
    assert_eq!(request.key, Some("key".to_string()));
    assert_eq!(request.params.decks, vec!["Japanese::Kanji".to_string()]);
}

#[test]
fn anki_counts_due_and_learning_cards() {
    let response = DeckStatsResponse { error: None, result: Some(vec![("1".to_string(), deck(12, 3))]) };
    assert_eq!(anki_review_count(&response), 15);
    let data = anki_provider_data(&response);
    assert_eq!(data, ProviderData { review_count: 15, next_review: None, action_url: None });
    let error = DeckStatsResponse { error: Some("deck not found".to_string()), result: None };
    assert_eq!(anki_review_count(&error), 0);
}

#[test]
fn bunpro_study_queue() {
    assert_eq!(study_queue_url("abc"), "https://bunpro.jp/api/user/abc/study_queue");
    let queue = StudyQueueData {
        reviews_available: 9,
        reviews_available_next_hour: 11,
        reviews_available_next_day: 40,
        next_review_date: 1737302400,
    };
    let data = bunpro_provider_data(&queue);
    assert_eq!(data, ProviderData { review_count: 9, next_review: Some(at(1737302400)), action_url: None });
}

#[test]
fn kamesame_session() {
    let cache = Some(KameSameCache { session: "s3cr3t".to_string(), session_expiry: at(100) });
    assert!(has_session(&cache, &at(99)));
    assert!(!has_session(&cache, &at(100)));
    assert!(!has_session(&None, &at(0)));
    assert_eq!(session_cookie(&cache, &at(50)), Some("_kamesame_session=s3cr3t".to_string()));
    assert_eq!(session_cookie(&cache, &at(150)), None);
}

#[test]
fn kamesame_login() {
    let ok = LoginResponseBody { error_messages: vec![] };
    let bad = LoginResponseBody { error_messages: vec!["Invalid password".to_string()] };
    assert!(!login_failed(true, &ok));
    assert!(login_failed(false, &ok));
    assert!(login_failed(true, &bad));
    let now = at(1_000_000);
    let s = session_from_cookie("abc".to_string(), CookieExpiry::At(at(2_000_000)), now);
    assert_eq!(s.session_expiry, at(2_000_000));
    let s = session_from_cookie("abc".to_string(), CookieExpiry::Session, now);
    assert_eq!(s.session_expiry, at(1_000_000 - 86400));
    let s = session_from_cookie("abc".to_string(), CookieExpiry::Unset, now);
    assert_eq!(s.session_expiry, at(1_000_000 - 86400));
    assert!(!has_session(&Some(s), &now));
    let status = StatusResponse { reviews_status: ReviewsStatus { ready_for_review: 42, next_hour: 1, next_day: 2 } };
    let data = kamesame_data(&status, &Some("https://www.kamesame.com/".to_string()));
    assert_eq!(data.review_count, 42);
    assert_eq!(data.action_url, Some("https://www.kamesame.com/".to_string()));
}

fn sign_in(errors: Option<Vec<GraphQlError>>, payload: Option<SignInPayload>) -> GraphQlResponse<SignInData> {
    GraphQlResponse { data: Some(SignInData { sign_in: payload }), errors }
}

fn studies(lesson: i32, kanji: i32, vocabulary: i32) -> StudiesData {
    StudiesData {
        get_todays_studies: GetTodaysStudies {
            system_reviews: SystemReviews { remaining: ReviewCounts { lesson, kanji, vocabulary } },
        },
    }
}

#[test]
fn nativshark_token_cache() {
    let now = at(1_000);
    let cache = token_cache(&"tok".to_string(), &now);
    assert_eq!(cache.expiry, at(1_000 + 28 * 24 * 60 * 60));
    assert_eq!(cached_token(Some(cache.clone()), &at(2_000)), Some("tok".to_string()));
    assert_eq!(cached_token(Some(cache), &at(1_000 + 28 * 24 * 60 * 60)), None);
    assert_eq!(cached_token(None, &now), None);
    let _ = TokenCache { token: String::new(), expiry: now };
}

#[test]
fn nativshark_login_answers() {
    let user = || Some(SignInPayload { errors: None, result: Some(SignInResult::User { token: "t".to_string() }) });
    assert_eq!(login_token(sign_in(None, user())), Some("t".to_string()));
    assert_eq!(login_token(sign_in(Some(vec![]), user())), None);
    assert_eq!(
        login_token(sign_in(None, Some(SignInPayload {
            errors: Some(vec![]),
            result: Some(SignInResult::User { token: "t".to_string() })
        }))),
        Some("t".to_string())
    );
    assert_eq!(
        login_token(sign_in(None, Some(SignInPayload {
            errors: Some(vec![GraphQlError { message: "wrong".to_string() }]),
            result: None
        }))),
        None
    );
    assert_eq!(
        login_token(sign_in(None, Some(SignInPayload { errors: None, result: Some(SignInResult::MfaRequired) }))),
        None
    );
    assert_eq!(login_token(sign_in(None, Some(SignInPayload { errors: None, result: None }))), None);
    assert_eq!(login_token(sign_in(None, None)), None);
    assert_eq!(login_token(GraphQlResponse { data: None, errors: None }), None);
}

#[test]
fn nativshark_studies() {
    let ok = GraphQlResponse { data: Some(studies(1, 2, 3)), errors: None };
    assert_eq!(studies_of(ok), Some(studies(1, 2, 3)));
    let refused = GraphQlResponse { data: Some(studies(1, 2, 3)), errors: Some(vec![]) };
    assert_eq!(studies_of(refused), None);
    assert_eq!(nativshark_data(&Some(studies(5, 10, 20))).review_count, 35);
    assert_eq!(nativshark_data(&None).review_count, 0);
    assert_eq!(after_studies(&None, false), AfterStudies::Relogin);
    assert_eq!(
        after_studies(&None, true),
        AfterStudies::Finish(ProviderData { review_count: 0, next_review: None, action_url: None })
    );
    assert_eq!(
        after_studies(&Some(studies(1, 1, 1)), false),
        AfterStudies::Finish(ProviderData { review_count: 3, next_review: None, action_url: None })
    );
    assert_eq!(after_relogin(Some("n".to_string())), AfterRelogin::Retry("n".to_string()));
    assert_eq!(
        after_relogin(None),
        AfterRelogin::Finish(ProviderData { review_count: 0, next_review: None, action_url: None })
    );
}

fn summary(subjects: Vec<Vec<i32>>, next: &str) -> SummaryResponse {
    SummaryResponse {
        data: SummaryData {
            reviews: subjects
                .into_iter()
                .map(|ids| ReviewData { available_at: "2025-01-19T15:00:00Z".to_string(), subject_ids: ids })
                .collect(),
            next_reviews_at: next.to_string(),
        },
    }
}

#[test]
fn wanikani_summary() {
    let s = summary(vec![vec![1, 2, 3], vec![4]], "2025-01-19T22:00:00Z");
    let data = build_provider_data(&s);
    assert_eq!(data.review_count, 3);
    assert_eq!(data.next_review, Some(at(1737324000)));
    assert_eq!(build_provider_data(&summary(vec![], "garbage")), ProviderData {
        review_count: 0,
        next_review: None,
        action_url: None
    });
    assert_eq!(try_build_provider_data(&summary(vec![vec![1]], "garbage")), None);
    assert_eq!(try_build_provider_data(&s), Some(data));
}

#[test]
fn wanikani_cache_entries() {
    let now = at(1_000);
    let entry = fetched_entry(summary(vec![vec![1]], "2025-01-19T22:00:00Z"), Some("etag".to_string()), None, now, 300);
    assert_eq!(entry.expires_at, at(1_300));
    assert_eq!(conditional_headers(&Some(entry.clone())), (Some("etag".to_string()), None));
    assert_eq!(conditional_headers(&None), (None, None));
    assert_eq!(fresh_summary(Some(entry.clone()), &at(1_299)), Ok(entry.summary.clone()));
    assert_eq!(fresh_summary(Some(entry.clone()), &at(1_300)), Err(Some(entry.clone())));
    assert_eq!(fresh_summary(None, &now), Err(None));
    let refreshed = not_modified_entry(Some(entry.clone()), at(2_000), 60);
    assert_eq!(refreshed, CachedSummary { expires_at: at(2_060), ..entry });
}

#[test]
fn kamesame_session_from_set_cookie() {
    let now = at(1_700_000_000);
    let s = try_session_from_set_cookie("_kamesame_session=abc123; Expires=Wed, 21 Oct 2015 07:28:00 GMT; Path=/", now)
        .unwrap();
    assert_eq!(s.session, "abc123");
    assert_eq!(s.session_expiry, at(1445412480));
    let s = try_session_from_set_cookie("_kamesame_session=xyz; Path=/; HttpOnly", now).unwrap();
    assert_eq!(s.session, "xyz");
    assert_eq!(s.session_expiry, at(1_700_000_000 - 86400));
    assert!(try_session_from_set_cookie("no equals sign", now).is_none());
}

#[test]
fn status_codes() {
    assert!(is_success(200) && is_success(299) && !is_success(304) && !is_success(199));
    assert!(is_error_status(404) && is_error_status(500) && !is_error_status(304) && !is_error_status(600));
    assert_eq!(summary_answer(304), SummaryAnswer::NotModified);
    assert_eq!(summary_answer(200), SummaryAnswer::Changed);
    assert_eq!(summary_answer(401), SummaryAnswer::Failed);
    assert_eq!(summary_answer(503), SummaryAnswer::Failed);
}

#[test]
fn kamesame_first_step() {
    let data = ProviderData { review_count: 42, next_review: None, action_url: None };
    let fresh = Some(CachedEntry { data: data.clone(), expires_at: at(1_300) });
    let session = Some(KameSameCache { session: "abc".to_string(), session_expiry: at(5_000) });
    assert_eq!(kamesame_start(fresh.clone(), &session, &at(1_299)), KameSameAction::UseCached(data.clone()));
    assert_eq!(kamesame_start(fresh.clone(), &None, &at(1_000)), KameSameAction::UseCached(data));
    assert_eq!(kamesame_start(fresh.clone(), &session, &at(1_300)), KameSameAction::FetchStatus);
    assert_eq!(kamesame_start(None, &session, &at(4_999)), KameSameAction::FetchStatus);
    assert_eq!(kamesame_start(None, &session, &at(5_000)), KameSameAction::Login);
    assert_eq!(kamesame_start(fresh, &None, &at(1_300)), KameSameAction::Login);
}

#[test]
fn kamesame_second_run_within_the_window_uses_the_cache() {
    let first = kamesame_start(None, &None, &at(10_000));
    assert_eq!(first, KameSameAction::Login);
    let status = StatusResponse { reviews_status: ReviewsStatus { ready_for_review: 7, next_hour: 0, next_day: 3 } };
    let data = kamesame_data(&status, &kamesame::default_action_url());
    let written = srscheck::cache::entry_after_fetch::<ProviderData, String>(
        Ok(data.clone()),
        at(10_000),
        kamesame::default_cache_expiry() as i64,
    )
    .unwrap();
    assert_eq!(kamesame_start(Some(written.clone()), &None, &at(10_299)), KameSameAction::UseCached(data));
    assert_eq!(kamesame_start(Some(written), &None, &at(10_300)), KameSameAction::Login);
}

#[test]
fn kamesame_after_login() {
    let url = Some("https://www.kamesame.com/".to_string());
    let ok = LoginResponseBody { error_messages: vec![] };
    let bad = LoginResponseBody { error_messages: vec!["Invalid password".to_string()] };
    assert_eq!(after_kamesame_login(true, &ok, &url), KameSameLogin::LoggedIn);
    assert_eq!(after_kamesame_login(false, &ok, &url), KameSameLogin::Refused(empty_data(url.clone())));
    assert_eq!(
        after_kamesame_login(true, &bad, &url),
        KameSameLogin::Refused(ProviderData { review_count: 0, next_review: None, action_url: url.clone() })
    );
}

#[test]
fn wanikani_answer_steps() {
    let entry = fetched_entry(summary(vec![vec![1, 2]], "2025-01-19T22:00:00Z"), Some("e1".to_string()), None, at(1_000), 300);
    assert_eq!(
        on_summary_answer(304, Some(entry.clone()), at(2_000), 300),
        SummaryStep::Refresh(CachedSummary { expires_at: at(2_300), ..entry.clone() })
    );
    assert_eq!(on_summary_answer(404, Some(entry.clone()), at(2_000), 300), SummaryStep::Fail);
    assert_eq!(on_summary_answer(500, None, at(2_000), 300), SummaryStep::Fail);
    assert_eq!(on_summary_answer(200, None, at(2_000), 300), SummaryStep::Download);
    assert_eq!(on_summary_answer(302, Some(entry), at(2_000), 300), SummaryStep::Download);
}
