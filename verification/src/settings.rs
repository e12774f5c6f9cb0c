use vstd::prelude::*;

use crate::providers::anki::AnkiProvider;
use crate::providers::bunpro::BunproProvider;
use crate::providers::http::HttpProvider;
use crate::providers::kamesame::KameSameProvider;
use crate::providers::nativshark::NativSharkProvider;
use crate::providers::wanikani::WaniKaniProvider;

verus! {

#[verifier::external_type_specification]
#[verifier::external_body]
pub struct ExPathBuf(std::path::PathBuf);

/// A configured review service, by its type.
#[derive(Clone, Debug, PartialEq)]
pub enum Provider {
    WaniKani(WaniKaniProvider),
    Bunpro(BunproProvider),
    Anki(AnkiProvider),
    KameSame(KameSameProvider),
    NativShark(NativSharkProvider),
    Http(HttpProvider),
}

/// The review count from which the count is shown as high, unless configured otherwise.
pub fn default_review_threshold() -> (threshold: i32)
    ensures
        threshold == 100,
{
    100
}

/// The configuration.
#[derive(Debug)]
pub struct Settings {
    /// Where the cache files are kept
    pub cache_path: std::path::PathBuf,
    /// The review count from which the count is shown as high
    pub review_threshold: i32,
    /// Data sources to fetch data from, each under its own name
    pub providers: Vec<(String, Provider)>,
}

} // verus!
