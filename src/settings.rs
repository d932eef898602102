//! The process settings.
use vstd::prelude::*;

verus! {

/// Where the store lives.
pub struct AppSettings {
    pub db_connection: String,
}

impl Clone for AppSettings {
    fn clone(&self) -> (r: Self)
        ensures
            r.db_connection@ == self.db_connection@,
    {
        AppSettings { db_connection: self.db_connection.clone() }
    }
}

/// The store location used when none is configured: an in-memory store.
pub open spec fn default_connection() -> Seq<char> {
    seq![':', 'm', 'e', 'm', 'o', 'r', 'y', ':']
}

impl AppSettings {
    /// The settings from the configured store location, if any; without one the
    /// store is kept in memory.
    pub fn new(db_connection: Option<String>) -> (r: Self)
        ensures
            db_connection matches Some(s) ==> r.db_connection@ == s@,
            db_connection is None ==> r.db_connection@ == default_connection(),
    {
        match db_connection {
            Some(s) => AppSettings { db_connection: s },
            None => {
                let s = String::from_str(":memory:");
                proof {
                    reveal_strlit(":memory:");
                    assert(s@ =~= default_connection());
                }
                AppSettings { db_connection: s }
            },
        }
    }
}

} // verus!
