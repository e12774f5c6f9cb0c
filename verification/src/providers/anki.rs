use vstd::prelude::*;

use super::ProviderData;

verus! {

/// A deck of a local Anki, read through the AnkiConnect add-on.
#[derive(Clone, Debug, PartialEq)]
pub struct AnkiProvider {
    /// URL to fetch data from
    pub url: String,
    /// Name of the deck to fetch data from
    pub deck: String,
    /// AnkiConnect API key
    pub api_key: Option<String>,
    /// URL to open to do reviews
    pub action_url: Option<String>,
    /// How long (in seconds) to cache API results for before fetching fresh data
    pub cache_expiry: u64,
}

/// The number of seconds an Anki provider keeps its data unless configured otherwise.
pub fn default_cache_expiry() -> (secs: u64)
    ensures
        secs == 10,
{
    crate::cache::default_cache_expiry::<10>()
}

/// The statistics AnkiConnect reports for one deck.
#[derive(Clone, Debug, PartialEq)]
pub struct DeckStatsData {
    pub deck_id: i64,
    pub name: String,
    pub learn_count: i32,
    pub new_count: i32,
    pub review_count: i32,
    pub total_in_deck: i32,
}

/// AnkiConnect's answer to `getDeckStats`: an error, or the statistics of each deck
/// asked for, keyed by deck id, in the order in which the answer is walked.
#[derive(Clone, Debug, PartialEq)]
pub struct DeckStatsResponse {
    pub error: Option<String>,
    pub result: Option<Vec<(String, DeckStatsData)>>,
}

/// The parameters of a `getDeckStats` request.
#[derive(Clone, Debug, PartialEq)]
pub struct DeckStatsParams {
    pub decks: Vec<String>,
}

/// An AnkiConnect request.
#[derive(Clone, Debug, PartialEq)]
pub struct DeckStatsRequest {
    pub action: String,
    pub version: i32,
    pub key: Option<String>,
    pub params: DeckStatsParams,
}

/// The request that asks AnkiConnect (API version 6) for the statistics of one deck,
/// with the API key when one is configured.
pub fn deck_stats_request(deck: &String, api_key: &Option<String>) -> (request: DeckStatsRequest)
    ensures
        request.action@ == "getDeckStats"@,
        request.version == 6,
        request.key == *api_key,
        request.params.decks@.len() == 1,
        request.params.decks@[0] == *deck,
{
    let mut decks: Vec<String> = Vec::new();
    decks.push(deck.clone());
    DeckStatsRequest {
        action: "getDeckStats".to_owned(),
        version: 6,
        key: api_key.clone(),
        params: DeckStatsParams { decks },
    }
}

/// The answer can be read: an answer without statistics carries an error, an answer
/// with statistics holds at least one deck, and that deck's due and learning cards
/// add up within `i32`.
pub open spec fn readable_response(response: DeckStatsResponse) -> bool {
    match response.result {
        None => response.error is Some,
        Some(decks) => decks.len() > 0 && i32::MIN <= decks[0].1.review_count as int
            + decks[0].1.learn_count as int <= i32::MAX,
    }
}

/// The number of reviews in the answer: the due and the learning cards of the first
/// deck it holds, and none when AnkiConnect answered with an error.
pub open spec fn review_count_of(response: DeckStatsResponse) -> int {
    match response.result {
        None => 0,
        Some(decks) => decks[0].1.review_count + decks[0].1.learn_count,
    }
}

/// The number of reviews AnkiConnect reports.
pub fn anki_review_count(response: &DeckStatsResponse) -> (count: i32)
    requires
        readable_response(*response),
    ensures
        count == review_count_of(*response),
        response.result matches Some(decks) ==> count == decks[0].1.review_count
            + decks[0].1.learn_count,
        response.result is None ==> count == 0,
{
    match &response.result {
        None => 0,
        Some(decks) => {
            let data = &decks[0].1;
            data.review_count + data.learn_count
        },
    }
}

/// The provider data of an AnkiConnect answer: its review count, no next review, no URL.
pub fn anki_provider_data(response: &DeckStatsResponse) -> (data: ProviderData)
    requires
        readable_response(*response),
    ensures
        data.review_count == review_count_of(*response),
        data.next_review is None,
        data.action_url is None,
{
    ProviderData { review_count: anki_review_count(response), next_review: None, action_url: None }
}

/// Anki's count is the due cards plus the learning cards of the deck, for all values:
/// each adds to the count on its own (learning cards count when nothing is due, and
/// due cards when nothing is being learnt); an answer without statistics counts none.
pub proof fn law_due_plus_learning(response: DeckStatsResponse, count: int)
    requires
        readable_response(response),
        count == review_count_of(response),
    ensures
        response.result matches Some(decks) ==> {
            &&& count - decks[0].1.learn_count == decks[0].1.review_count
            &&& count - decks[0].1.review_count == decks[0].1.learn_count
        },
        response.result is None ==> count == 0,
{
}

} // verus!
