//! What the dashboard says about itself.

use vstd::prelude::*;

verus! {

/// The application's name, version and start time.
#[derive(Debug, Clone, PartialEq, Eq)]
pub struct AppMetadata {
    pub app_name: String,
    pub version: String,
    pub started_at: i64,
}

impl AppMetadata {
    /// The metadata of a RelXen process of the given version, started at
    /// `started_at`.
    pub fn new(version: &str, started_at: i64) -> (m: AppMetadata)
        ensures
            m.app_name@ == "RelXen"@,
            m.version@ == version@,
            m.started_at == started_at,
    {
        AppMetadata {
            app_name: String::from_str("RelXen"),
            version: String::from_str(version),
            started_at,
        }
    }
}

} // verus!
