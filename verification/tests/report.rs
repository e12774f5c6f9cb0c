use srscheck::report::time_locale_name;
use srscheck::report::{checked_total_review_count, try_total_row};
use srscheck::providers::ProviderData;
use srscheck::report::{
    earliest_next_review, insert_report, is_name_less, next_review_cell, review_color, sorted_reports, table_row,
    total_review_count, total_row, NextReviewCell, ProviderReport, ProviderStatus, ReviewColor,
};
use srscheck::time::Timestamp;

fn at(secs: i64) -> Timestamp {
    Timestamp { secs, nanos: 0 }
}

fn fetched(name: &str, count: i32, next: Option<i64>) -> ProviderReport {
    ProviderReport {
        name: name.to_string(),
        status: ProviderStatus::Fetched(ProviderData {
            review_count: count,
            next_review: next.map(at),
            action_url: Some(format!("https://{name}.example/")),
        }),
    }
}

fn failed(name: &str) -> ProviderReport {
    ProviderReport { name: name.to_string(), status: ProviderStatus::Failed("dns error".to_string()) }
}

fn names(reports: &[ProviderReport]) -> Vec<String> {
    reports.iter().map(|r| r.name.clone()).collect()
}

#[test]
fn order_of_names() {
    assert!(is_name_less("Anki", "Bunpro"));
    assert!(is_name_less("Anki", "Ankidroid"));
    assert!(!is_name_less("Ankidroid", "Anki"));
    assert!(!is_name_less("Anki", "Anki"));
    assert!(is_name_less("Zeta", "alpha"));
    assert!(is_name_less("", "a"));
    assert!(is_name_less("é", "日本"));
}

#[test]
fn reports_are_sorted_by_name() {
    let reports = sorted_reports(vec![
        fetched("WaniKani", 0, Some(100)),
        fetched("Anki", 12, None),
        failed("MySrs"),
        fetched("KameSame", 42, None),
        fetched("Bunpro", 9, Some(50)),
    ]);
    assert_eq!(names(&reports), vec!["Anki", "Bunpro", "KameSame", "MySrs", "WaniKani"]);
}

#[test]
fn later_outcome_replaces_earlier() {
    let mut reports = Vec::new();
    insert_report(&mut reports, fetched("b", 1, None));
    insert_report(&mut reports, fetched("a", 2, None));
    insert_report(&mut reports, failed("b"));
    assert_eq!(names(&reports), vec!["a", "b"]);
    assert_eq!(reports[1].status, ProviderStatus::Failed("dns error".to_string()));
}

#[test]
fn failed_providers_are_left_out_of_the_total() {
    let reports = vec![fetched("Anki", 12, None), failed("MySrs"), fetched("KameSame", 42, None)];
    assert_eq!(total_review_count(&reports), 54);
    assert_eq!(total_review_count(&vec![failed("a")]), 0);
    assert_eq!(total_review_count(&vec![]), 0);
}

#[test]
fn colors_follow_the_threshold() {
    assert_eq!(review_color(0, 100), ReviewColor::Green);
    assert_eq!(review_color(1, 100), ReviewColor::Yellow);
    assert_eq!(review_color(99, 100), ReviewColor::Yellow);
    assert_eq!(review_color(100, 100), ReviewColor::Red);
    assert_eq!(review_color(5, 0), ReviewColor::Red);
}

#[test]
fn next_review_cells() {
    assert_eq!(next_review_cell(3, Some(at(5))), NextReviewCell::Now);
    assert_eq!(next_review_cell(0, Some(at(5))), NextReviewCell::At(at(5)));
    assert_eq!(next_review_cell(0, None), NextReviewCell::NotAvailable);
}

#[test]
fn earliest_next_review_of_answered_providers() {
    let reports = vec![fetched("a", 0, Some(300)), failed("b"), fetched("c", 0, Some(200)), fetched("d", 0, None)];
    assert_eq!(earliest_next_review(&reports), Some(at(200)));
    assert_eq!(earliest_next_review(&vec![fetched("d", 0, None), failed("e")]), None);
}

#[test]
fn table_rows() {
    let row = table_row(&fetched("Bunpro", 9, Some(50)), 100);
    assert_eq!(row.name, "Bunpro");
    assert!(row.fetched);
    assert_eq!(row.reviews, Some((9, ReviewColor::Yellow)));
    assert_eq!(row.next_review, NextReviewCell::Now);
    assert_eq!(row.url, "https://Bunpro.example/");
    let row = table_row(&failed("MySrs"), 100);
    assert!(!row.fetched);
    assert_eq!(row.reviews, None);
    assert_eq!(row.next_review, NextReviewCell::NotAvailable);
    assert_eq!(row.url, "");
}

#[test]
fn total_rows() {
    let waiting = vec![fetched("a", 0, Some(300)), fetched("b", 120, None), failed("c")];
    let row = total_row(&waiting, 100);
    assert_eq!(row.reviews, 120);
    assert_eq!(row.color, ReviewColor::Red);
    assert_eq!(row.next_review, NextReviewCell::Now);
    let idle = vec![fetched("a", 0, Some(300)), fetched("b", 0, Some(200)), failed("c")];
    let row = total_row(&idle, 100);
    assert_eq!(row.reviews, 0);
    assert_eq!(row.color, ReviewColor::Green);
    assert_eq!(row.next_review, NextReviewCell::At(at(200)));
}

#[test]
fn overflowing_total_is_refused() {
    let big = vec![fetched("a", i32::MAX, None), fetched("b", 1, None)];
    assert_eq!(checked_total_review_count(&big), None);
    assert!(try_total_row(&big, 100).is_none());
    let fine = vec![fetched("a", i32::MAX, None), failed("b")];
    assert_eq!(checked_total_review_count(&fine), Some(i32::MAX));
    assert_eq!(try_total_row(&fine, 100).unwrap().reviews, i32::MAX);
}

#[test]
fn locale_from_lc_time() {
    use_locale("de_DE.UTF-8", "de_DE");
    use_locale("ja_JP", "ja_JP");
    use_locale("C.UTF-8.extra", "C");
    use_locale("", "");
    assert_eq!(time_locale_name(None, Some("en-US".to_string())), Some("en-US".to_string()));
    assert_eq!(time_locale_name(None, None), None);
}

fn use_locale(setting: &str, expected: &str) {
    assert_eq!(time_locale_name(Some(setting.to_string()), None), Some(expected.to_string()));
}
