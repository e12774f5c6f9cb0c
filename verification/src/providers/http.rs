use vstd::prelude::*;
use jaq_core::data::JustLut;
use jaq_core::load::{Arena, File, Loader};
use jaq_core::Compiler;
use jaq_json::Val;
use vstd::utf8::*;

use super::ProviderData;
use crate::time::{parse_rfc3339, rfc3339_instant, unix_instant, utc_from_unix_secs, utf8_text, Timestamp};

verus! {

/// The HTTP method used unless configured otherwise.
pub fn default_method() -> (method: String)
    ensures
        method@ == "GET"@,
{
    "GET".to_owned()
}

/// A byte that may stand in an HTTP token (RFC 9110 `tchar`): `!#$%&'*+-.^_`|~`, a
/// digit or an ASCII letter.
pub open spec fn is_token_byte(b: u8) -> bool {
    ||| b == 33
    ||| 35 <= b <= 39
    ||| b == 42 || b == 43 || b == 45 || b == 46
    ||| 48 <= b <= 57
    ||| 65 <= b <= 90
    ||| 94 <= b <= 122
    ||| b == 124 || b == 126
}

/// The bytes name an HTTP method: a non-empty token.
pub open spec fn is_http_method(bytes: Seq<u8>) -> bool {
    &&& bytes.len() > 0
    &&& forall|i: int| 0 <= i < bytes.len() ==> #[trigger] is_token_byte(bytes[i])
}

/// `reqwest::Method::from_bytes(bytes).is_ok()`: the standard methods and every other
/// non-empty sequence of token bytes are accepted, of any length.
#[verifier::external_body]
fn method_accepted(bytes: &[u8]) -> (accepted: bool)
    ensures
        accepted == is_http_method(bytes@),
{
    reqwest::Method::from_bytes(bytes).is_ok()
}

/// The method to send: the configured one where it is a valid HTTP method, else GET.
pub fn request_method(method: &str) -> (used: String)
    ensures
        is_http_method(encode_utf8(method@)) ==> used@ == method@,
        !is_http_method(encode_utf8(method@)) ==> used@ == "GET"@,
{
    if method_accepted(method.as_bytes()) {
        method.to_owned()
    } else {
        "GET".to_owned()
    }
}

/// The number of seconds an HTTP provider keeps its data unless configured otherwise.
pub fn default_cache_expiry() -> (secs: u64)
    ensures
        secs == 60,
{
    crate::cache::default_cache_expiry::<60>()
}

/// Any service with a JSON HTTP API, read through jq filters.
#[derive(Clone, Debug, PartialEq)]
pub struct HttpProvider {
    /// URL to send the request to
    pub url: String,
    /// HTTP method to use for the request (GET, POST, PUT, DELETE, etc.)
    pub method: String,
    /// Headers to include in the request
    pub headers: Vec<(String, String)>,
    /// jq filter that picks the review count out of the response, e.g. `.reviews.pending_reviews`
    pub review_count_path: String,
    /// jq filter that picks the next review date out of the response, e.g. `.reviews.next_review`.
    /// The matched value can be either an RFC 3339 string or a Unix timestamp.
    pub next_review_path: Option<String>,
    /// URL to open to do reviews
    pub action_url: Option<String>,
    /// How long (in seconds) to cache API results for before fetching fresh data
    pub cache_expiry: u64,
}

/// jaq's JSON value (`jaq_json::Val`), carried opaquely inside a read document.
#[verifier::external_type_specification]
#[verifier::external_body]
pub struct ExJaqValue(Val);

/// What the filters read of a JSON value.
#[derive(Clone, Debug, PartialEq)]
pub enum JqValue {
    /// A number, with its value when it is an integer that fits a machine word
    Num(Option<isize>),
    /// A text string, as the bytes it holds
    Text(Vec<u8>),
    /// A byte string
    Bytes(Vec<u8>),
    /// Null, a boolean, an array or an object
    Other,
}

/// Whether jaq's JSON reader (`jaq_json::read::parse_single`) accepts the bytes as one
/// JSON value.
pub uninterp spec fn jaq_parses(bytes: Seq<u8>) -> bool;

/// The message with which jaq refuses to load or compile a jq filter, if it does.
pub uninterp spec fn jaq_compile_error(code: Seq<char>) -> Option<Seq<char>>;

/// A JSON document that jaq has read, with the bytes it was read from.
pub struct JsonDocument {
    text: Ghost<Seq<u8>>,
    value: Val,
}

impl JsonDocument {
    /// The bytes the document was read from.
    pub closed spec fn bytes(&self) -> Seq<u8> {
        self.text@
    }

    /// The value jaq read, for a filter to run on.
    pub fn value(&self) -> &Val {
        &self.value
    }
}

/// `jaq_json::read::parse_single`: the one JSON value the bytes hold, or `None` when they
/// hold no value or more than one. Which bytes are accepted is named, not stated.
#[verifier::external_body]
fn read_single_json(bytes: &[u8]) -> (doc: Option<JsonDocument>)
    ensures
        doc.is_some() == jaq_parses(bytes@),
        doc matches Some(d) ==> d.bytes() == bytes@,
{
    match jaq_json::read::parse_single(bytes) {
        Ok(value) => Some(JsonDocument { text: Ghost(bytes@), value }),
        Err(_) => None,
    }
}

/// Reads a response body as one JSON document: `None` when it is not exactly one JSON
/// value.
pub fn parse_json(bytes: &[u8]) -> (doc: Option<JsonDocument>)
    ensures
        doc.is_some() == jaq_parses(bytes@),
        doc matches Some(d) ==> d.bytes() == bytes@,
{
    read_single_json(bytes)
}

/// jaq's error type, which the arithmetic impls of `Val` return; it is carried opaquely.
#[verifier::external_type_specification]
#[verifier::external_body]
#[verifier::reject_recursive_types(V)]
pub struct ExJaqError<V>(jaq_core::Error<V>);

/// jaq's compiled form of a jq filter (`jaq_core::Filter`), held whole and opaque: the
/// filter type's parameter is bounded by jaq's `DataT` trait, so the type is kept here
/// rather than declared on its own.
#[verifier::external_body]
pub struct CompiledJq {
    pub filter: jaq_core::Filter<JustLut<Val>>,
}

/// A jq filter that jaq has compiled, with the source text it was compiled from.
pub struct JqFilter {
    code: Ghost<Seq<char>>,
    compiled: CompiledJq,
}

impl JqFilter {
    /// The source text the filter was compiled from.
    pub closed spec fn code(&self) -> Seq<char> {
        self.code@
    }

    /// jaq's compiled filter, to be run.
    pub fn compiled(&self) -> &CompiledJq {
        &self.compiled
    }
}

/// The outcome of compiling `code`: the compiled filter with that source text when jaq
/// accepts it, else jaq's message.
pub open spec fn compiled_from(filter: Result<JqFilter, String>, code: Seq<char>) -> bool {
    match filter {
        Ok(f) => jaq_compile_error(code) is None && f.code() == code,
        Err(e) => jaq_compile_error(code) == Some(e@),
    }
}

/// Loads a jq filter with jaq's core, standard and JSON definitions (`Loader::load`) and
/// compiles it with their native functions (`Compiler::compile`); the errors of either
/// come back as their debug text. Which filters are accepted is named, not stated.
#[verifier::external_body]
fn compile_jq(code: &str) -> (filter: Result<JqFilter, String>)
    ensures
        match filter {
            Ok(f) => jaq_compile_error(code@) is None && f.code() == code@,
            Err(e) => jaq_compile_error(code@) == Some(e@),
        },
{
    let defs = jaq_core::defs().chain(jaq_std::defs()).chain(jaq_json::defs());
    let funs = jaq_core::funs().chain(jaq_std::funs()).chain(jaq_json::funs());
    let arena = Arena::default();
    let modules = match Loader::new(defs).load(&arena, File { code, path: () }) {
        Ok(modules) => modules,
        Err(e) => return Err(format!("{e:?}")),
    };
    match Compiler::default().with_funs(funs).compile(modules) {
        Ok(filter) => Ok(JqFilter { code: Ghost(code@), compiled: CompiledJq { filter } }),
        Err(e) => Err(format!("{e:?}")),
    }
}

/// Compiles a jq filter: the filter, or the message with which jaq refuses it.
pub fn compile_filter(code: &str) -> (filter: Result<JqFilter, String>)
    ensures
        compiled_from(filter, code@),
{
    compile_jq(code)
}

/// The review count a filter output gives: an integer number, cut to 32 bits.
pub open spec fn review_count_from(val: JqValue) -> Option<i32> {
    match val {
        JqValue::Num(Some(i)) => Some(i as i32),
        _ => None,
    }
}

/// The review count a filter output gives.
pub fn val_to_review_count(val: &JqValue) -> (count: Option<i32>)
    ensures
        count == review_count_from(*val),
{
    match val {
        JqValue::Num(Some(i)) => Some(*i as i32),
        _ => None,
    }
}

/// The next review a filter output gives: a Unix timestamp in seconds, or an RFC 3339
/// date-time in a (text or byte) string of valid UTF-8.
pub open spec fn next_review_from(val: JqValue) -> Option<Timestamp> {
    match val {
        JqValue::Num(Some(i)) => unix_instant(i as int),
        JqValue::Text(b) => rfc3339_of_bytes(b@),
        JqValue::Bytes(b) => rfc3339_of_bytes(b@),
        _ => None,
    }
}

/// The instant an RFC 3339 date-time encoded in UTF-8 names.
pub open spec fn rfc3339_of_bytes(bytes: Seq<u8>) -> Option<Timestamp> {
    if valid_utf8(bytes) {
        rfc3339_instant(decode_utf8(bytes))
    } else {
        None
    }
}

fn rfc3339_from_bytes(bytes: &Vec<u8>) -> (instant: Option<Timestamp>)
    ensures
        instant == rfc3339_of_bytes(bytes@),
{
    match utf8_text(bytes.as_slice()) {
        Some(text) => parse_rfc3339(text),
        None => None,
    }
}

/// The next review a filter output gives.
pub fn val_to_next_review(val: &JqValue) -> (next: Option<Timestamp>)
    ensures
        next == next_review_from(*val),
{
    match val {
        JqValue::Num(Some(i)) => utc_from_unix_secs(*i as i64),
        JqValue::Text(b) => rfc3339_from_bytes(b),
        JqValue::Bytes(b) => rfc3339_from_bytes(b),
        _ => None,
    }
}

/// The review count that the output of the review count filter gives: the integer it
/// picks out (cut to 32 bits), and zero where the filter failed, gave no output, or gave
/// something other than an integer.
pub open spec fn count_of_output(out: Result<Option<JqValue>, String>) -> i32 {
    match out {
        Ok(Some(v)) => match review_count_from(v) {
            Some(c) => c,
            None => 0,
        },
        _ => 0,
    }
}

/// The next review that the output of the optional next review filter gives: none where
/// there is no such filter, it failed, gave no output, or gave neither a Unix timestamp
/// nor an RFC 3339 date-time.
pub open spec fn next_of_output(out: Option<Result<Option<JqValue>, String>>) -> Option<Timestamp> {
    match out {
        Some(Ok(Some(v))) => next_review_from(v),
        _ => None,
    }
}

/// The review count and next review that the outputs of the two filters give.
pub open spec fn http_data_of(
    count: Result<Option<JqValue>, String>,
    next: Option<Result<Option<JqValue>, String>>,
) -> (i32, Option<Timestamp>) {
    (count_of_output(count), next_of_output(next))
}

/// The provider data that the outputs of the filters give: the output of the review count
/// filter, and that of the next review filter where one is configured.
pub fn provider_data_from_outputs(
    count: Result<Option<JqValue>, String>,
    next: Option<Result<Option<JqValue>, String>>,
) -> (data: ProviderData)
    ensures
        (data.review_count, data.next_review) == http_data_of(count, next),
        count matches Ok(Some(JqValue::Num(Some(i)))) ==> data.review_count == i as i32,
        !(count matches Ok(Some(JqValue::Num(Some(_))))) ==> data.review_count == 0,
        next matches Some(Ok(Some(v))) ==> data.next_review == next_review_from(v),
        !(next matches Some(Ok(Some(_)))) ==> data.next_review is None,
        data.action_url is None,
{
    let review_count = match &count {
        Ok(Some(val)) => match val_to_review_count(val) {
            Some(c) => c,
            None => 0,
        },
        _ => 0,
    };
    let next_review = match &next {
        Some(Ok(Some(val))) => val_to_next_review(val),
        _ => None,
    };
    ProviderData { review_count, next_review, action_url: None }
}

/// The two filters are read apart: the review count is the integer that the count
/// filter's first output holds (cut to 32 bits, zero for anything else), and the next
/// review is read from the next review filter's first output alone, whatever the count
/// is (zero included): a Unix timestamp in seconds, or an RFC 3339 date-time in a string
/// of valid UTF-8; otherwise there is none.
pub proof fn law_filter_outputs(
    count: Result<Option<JqValue>, String>,
    next: Option<Result<Option<JqValue>, String>>,
    data: (i32, Option<Timestamp>),
    other_count: Result<Option<JqValue>, String>,
)
    requires
        data == http_data_of(count, next),
    ensures
        count matches Ok(Some(JqValue::Num(Some(i)))) ==> data.0 == i as i32,
        !(count matches Ok(Some(JqValue::Num(Some(_))))) ==> data.0 == 0,
        next matches Some(Ok(Some(JqValue::Num(Some(i))))) ==> data.1 == unix_instant(i as int),
        next matches Some(Ok(Some(JqValue::Text(b)))) ==> data.1 == (if valid_utf8(b@) {
            rfc3339_instant(decode_utf8(b@))
        } else {
            None
        }),
        next matches Some(Ok(Some(JqValue::Bytes(b)))) ==> data.1 == (if valid_utf8(b@) {
            rfc3339_instant(decode_utf8(b@))
        } else {
            None
        }),
        next matches Some(Ok(Some(JqValue::Num(None)))) ==> data.1 is None,
        next matches Some(Ok(Some(JqValue::Other))) ==> data.1 is None,
        !(next matches Some(Ok(Some(_)))) ==> data.1 is None,
        http_data_of(other_count, next).1 == data.1,
{
}

/// What an HTTP provider does with a response body. Running a filter is left to the
/// caller: a jq filter may run forever, and `halt` ends the whole process.
pub enum HttpStep {
    /// The body is not one JSON value: the provider reports this data (no reviews)
    Done(ProviderData),
    /// Run on the document the review count filter and, where one is configured, the next
    /// review filter (a refused filter has jaq's message as its output), then hand the
    /// first outputs to `provider_data_from_outputs`
    RunFilters(JsonDocument, Result<JqFilter, String>, Option<Result<JqFilter, String>>),
}

/// The step for an HTTP provider's response body: zero reviews and no next review when it
/// is not one JSON value; otherwise the document it holds and the provider's filters,
/// compiled, the review count filter first.
pub fn http_step(provider: &HttpProvider, body: &[u8]) -> (step: HttpStep)
    ensures
        !jaq_parses(body@) ==> step == HttpStep::Done(
            (ProviderData { review_count: 0, next_review: None, action_url: None }),
        ),
        jaq_parses(body@) ==> (step matches HttpStep::RunFilters(doc, count, next) && doc.bytes()
            == body@ && compiled_from(count, provider.review_count_path@) && match (
            next,
            provider.next_review_path,
        ) {
            (None, None) => true,
            (Some(n), Some(p)) => compiled_from(n, p@),
            _ => false,
        }),
{
    let doc = match parse_json(body) {
        Some(doc) => doc,
        None => {
            return HttpStep::Done(ProviderData { review_count: 0, next_review: None, action_url: None });
        },
    };
    let count = compile_filter(provider.review_count_path.as_str());
    let next = match &provider.next_review_path {
        Some(path) => Some(compile_filter(path.as_str())),
        None => None,
    };
    HttpStep::RunFilters(doc, count, next)
}

} // verus!
