use jaq_core::data::JustLut;
use jaq_core::{unwrap_valr, Ctx, Vars};
use jaq_json::Val;
use srscheck::providers::http::{
    compile_filter, default_method, http_step, parse_json, provider_data_from_outputs, request_method,
    val_to_next_review, val_to_review_count, HttpProvider, HttpStep, JqFilter, JqValue, JsonDocument,
};
use srscheck::providers::ProviderData;
use srscheck::time::Timestamp;

fn sample() -> JsonDocument {
    parse_json(
        br#"{"reviews": {"pending_reviews": 120, "next_review": "2023-09-15T12:00:00Z", "epoch": 1694779200}}"#,
    )
    .unwrap()
}

/// The first output of a compiled filter on a document, as the program runs it.
fn first_output(filter: &Result<JqFilter, String>, doc: &JsonDocument) -> Result<Option<JqValue>, String> {
    let filter = &filter.as_ref().map_err(|e| e.clone())?.compiled().filter;
    let ctx = Ctx::<JustLut<Val>>::new(&filter.lut, Vars::new([]));
    match filter.id.run((ctx, doc.value().clone())).map(unwrap_valr).next() {
        Some(Ok(Val::Num(n))) => Ok(Some(JqValue::Num(n.as_isize()))),
        Some(Ok(Val::TStr(b))) => Ok(Some(JqValue::Text(b.to_vec()))),
        Some(Ok(Val::BStr(b))) => Ok(Some(JqValue::Bytes(b.to_vec()))),
        Some(Ok(_)) => Ok(Some(JqValue::Other)),
        Some(Err(e)) => Err(e.to_string()),
        None => Ok(None),
    }
}

/// Compiles a filter with the library and runs it on the document.
fn run_jq(code: &str, doc: &JsonDocument) -> Result<Option<JqValue>, String> {
    first_output(&compile_filter(code), doc)
}

/// The provider data of a body: the library's step, with the filters it asks for run.
fn http_provider_data(provider: &HttpProvider, body: &[u8]) -> ProviderData {
    match http_step(provider, body) {
        HttpStep::Done(data) => data,
        HttpStep::RunFilters(doc, count, next) => {
            let count_out = first_output(&count, &doc);
            let next_out = next.as_ref().map(|f| first_output(f, &doc));
            provider_data_from_outputs(count_out, next_out)
        }
    }
}

fn instant_of(text: &str) -> Timestamp {
    let d = chrono::DateTime::parse_from_rfc3339(text)
        .unwrap()
        .with_timezone(&chrono::Utc);
    Timestamp { secs: d.timestamp(), nanos: d.timestamp_subsec_nanos() }
}

fn provider(review_count_path: &str, next_review_path: Option<&str>) -> HttpProvider {
    HttpProvider {
        url: "https://example.com/api/reviews".to_string(),
        method: default_method(),
        headers: Vec::new(),
        review_count_path: review_count_path.to_string(),
        next_review_path: next_review_path.map(|p| p.to_string()),
        action_url: None,
        cache_expiry: 60,
    }
}

#[test]
fn extracts_review_count() {
    let val = run_jq(".reviews.pending_reviews", &sample())
        .unwrap()
        .unwrap();
    assert_eq!(val_to_review_count(&val), Some(120));
}

#[test]
fn extracts_next_review_from_rfc3339() {
    let val = run_jq(".reviews.next_review", &sample()).unwrap().unwrap();
    assert_eq!(val_to_next_review(&val), Some(instant_of("2023-09-15T12:00:00Z")));
}

#[test]
fn extracts_next_review_from_epoch() {
    let val = run_jq(".reviews.epoch", &sample()).unwrap().unwrap();
    assert_eq!(val_to_next_review(&val), Some(instant_of("2023-09-15T12:00:00Z")));
}

#[test]
fn missing_path_returns_null_not_error() {
    let val = run_jq(".reviews.missing", &sample()).unwrap().unwrap();
    assert_eq!(val_to_review_count(&val), None);
}

#[test]
fn invalid_filter_syntax_errors() {
    assert!(run_jq(".reviews..bad[", &sample()).is_err());
}

#[test]
fn filter_without_output_gives_none() {
    assert_eq!(run_jq("empty", &sample()).unwrap(), None);
}

#[test]
fn runtime_error_is_reported() {
    assert!(run_jq(".reviews.pending_reviews | keys", &sample()).is_err());
}

#[test]
fn invalid_json_is_refused() {
    assert!(parse_json(b"{not json").is_none());
    assert!(parse_json(b"1 2").is_none());
}

#[test]
fn review_count_is_cut_to_32_bits() {
    assert_eq!(val_to_review_count(&JqValue::Num(Some(4294967297))), Some(1));
    assert_eq!(val_to_review_count(&JqValue::Num(None)), None);
    assert_eq!(val_to_review_count(&JqValue::Text(b"12".to_vec())), None);
}

#[test]
fn next_review_from_strings() {
    assert_eq!(
        val_to_next_review(&JqValue::Bytes(b"2023-09-15T14:00:00+02:00".to_vec())),
        Some(instant_of("2023-09-15T12:00:00Z"))
    );
    assert_eq!(val_to_next_review(&JqValue::Text(vec![0xff, 0xfe])), None);
    assert_eq!(val_to_next_review(&JqValue::Text(b"tomorrow".to_vec())), None);
    assert_eq!(val_to_next_review(&JqValue::Other), None);
}

#[test]
fn next_review_from_out_of_range_epoch() {
    assert_eq!(
        val_to_next_review(&JqValue::Num(Some(8210266876799))),
        Some(Timestamp { secs: 8210266876799, nanos: 0 })
    );
    assert_eq!(val_to_next_review(&JqValue::Num(Some(8210266876800))), None);
}

#[test]
fn provider_data_from_body() {
    let body = br#"{"reviews": {"pending_reviews": 120, "next_review": "2023-09-15T12:00:00Z"}}"#;
    let data = http_provider_data(&provider(".reviews.pending_reviews", Some(".reviews.next_review")), body);
    assert_eq!(data.review_count, 120);
    assert_eq!(data.next_review, Some(instant_of("2023-09-15T12:00:00Z")));
    assert_eq!(data.action_url, None);
}

#[test]
fn provider_data_from_invalid_body_is_empty() {
    let data = http_provider_data(&provider(".reviews.pending_reviews", Some(".reviews.next_review")), b"<html>");
    assert_eq!(data.review_count, 0);
    assert_eq!(data.next_review, None);
}

#[test]
fn provider_data_with_failing_filters_is_zero() {
    let body = br#"{"reviews": {"pending_reviews": "many"}}"#;
    let data = http_provider_data(&provider(".reviews.pending_reviews", None), body);
    assert_eq!(data.review_count, 0);
    assert_eq!(data.next_review, None);
    let data = http_provider_data(&provider(".reviews..bad[", Some(".x")), body);
    assert_eq!(data.review_count, 0);
    assert_eq!(data.next_review, None);
}

#[test]
fn default_method_is_get() {
    assert_eq!(default_method(), "GET");
}

#[test]
fn invalid_method_falls_back_to_get() {
    assert_eq!(srscheck::providers::http::request_method("POST"), "POST");
    assert_eq!(srscheck::providers::http::request_method("PROPFIND"), "PROPFIND");
    assert_eq!(srscheck::providers::http::request_method("BAD METHOD"), "GET");
    assert_eq!(srscheck::providers::http::request_method(""), "GET");
}

#[test]
fn long_and_unusual_methods() {
    assert_eq!(request_method("VERY-LONG-EXTENSION-METHOD"), "VERY-LONG-EXTENSION-METHOD");
    assert_eq!(request_method("m!#$%&'*+-.^_`|~9"), "m!#$%&'*+-.^_`|~9");
    assert_eq!(request_method("GET\n"), "GET");
    assert_eq!(request_method("PÖST"), "GET");
    assert_eq!(request_method("(GET)"), "GET");
}

#[test]
fn refused_filter_gives_its_message() {
    let out = run_jq(".reviews..bad[", &sample());
    match out {
        Err(message) => assert!(!message.is_empty()),
        Ok(_) => panic!("a refused filter gave an output"),
    }
}

#[test]
fn data_from_filter_outputs() {
    let data = provider_data_from_outputs(
        Ok(Some(JqValue::Num(Some(7)))),
        Some(Ok(Some(JqValue::Text(b"2023-09-15T12:00:00Z".to_vec())))),
    );
    assert_eq!(data.review_count, 7);
    assert_eq!(data.next_review, Some(instant_of("2023-09-15T12:00:00Z")));
    assert_eq!(data.action_url, None);

    let data = provider_data_from_outputs(Ok(Some(JqValue::Num(Some(1694779200)))), Some(Ok(Some(JqValue::Num(Some(1694779200))))));
    assert_eq!(data.review_count, 1694779200);
    assert_eq!(data.next_review, Some(instant_of("2023-09-15T12:00:00Z")));

    let data = provider_data_from_outputs(Err("boom".to_string()), Some(Err("boom".to_string())));
    assert_eq!(data.review_count, 0);
    assert_eq!(data.next_review, None);

    let data = provider_data_from_outputs(Ok(None), Some(Ok(None)));
    assert_eq!(data.review_count, 0);
    assert_eq!(data.next_review, None);

    let data = provider_data_from_outputs(Ok(Some(JqValue::Text(b"12".to_vec()))), None);
    assert_eq!(data.review_count, 0);
    assert_eq!(data.next_review, None);

    let data = provider_data_from_outputs(Ok(Some(JqValue::Num(Some(-3)))), Some(Ok(Some(JqValue::Other))));
    assert_eq!(data.review_count, -3);
    assert_eq!(data.next_review, None);
}

#[test]
fn step_hands_over_the_configured_filters() {
    let body = br#"{"reviews": {"pending_reviews": 3, "next_review": 1694779200}}"#;
    match http_step(&provider(".reviews.pending_reviews", Some(".reviews.next_review")), body) {
        HttpStep::RunFilters(doc, count, next) => {
            assert_eq!(first_output(&count, &doc), Ok(Some(JqValue::Num(Some(3)))));
            let next = next.expect("a next review filter is configured");
            assert_eq!(first_output(&next, &doc), Ok(Some(JqValue::Num(Some(1694779200)))));
        }
        HttpStep::Done(_) => panic!("the body is JSON"),
    }
    match http_step(&provider(".reviews.pending_reviews", None), body) {
        HttpStep::RunFilters(_, _, next) => assert!(next.is_none()),
        HttpStep::Done(_) => panic!("the body is JSON"),
    }
    match http_step(&provider(".reviews..bad[", None), b"[1]") {
        HttpStep::RunFilters(_, count, _) => assert!(count.is_err()),
        HttpStep::Done(_) => panic!("the body is JSON"),
    }
    match http_step(&provider(".x", None), b"nope") {
        HttpStep::Done(data) => assert_eq!(data, ProviderData { review_count: 0, next_review: None, action_url: None }),
        HttpStep::RunFilters(..) => panic!("the body is not JSON"),
    }
}
