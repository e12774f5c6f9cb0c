//! Status of several spaced-repetition review services: the data each
//! service reports, the on-disk cache that spares repeated requests, and the
//! summary that is shown to the user.

pub mod cache;
pub mod providers;
pub mod report;
pub mod settings;
pub mod time;
