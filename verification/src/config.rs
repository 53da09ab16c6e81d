//! What the program falls back on where a setting is not given.

use vstd::prelude::*;
use vstd::string::StringExecFns;

verus! {

/// The database that is used where none is configured: one that SQLite keeps
/// in memory, which is empty at every start and gone at every exit.
pub open spec fn default_database_url() -> Seq<char> {
    "sqlite::memory:"@
}

/// The address that is listened on where none is configured: port 8080 on
/// every interface.
pub open spec fn default_listen_address() -> Seq<char> {
    "0.0.0.0:8080"@
}

/// The connection string of the database: the configured one, or the default.
pub fn database_url(configured: Option<String>) -> (url: String)
    ensures
        url@ == match configured {
            Some(given) => given@,
            None => default_database_url(),
        },
{
    match configured {
        Some(given) => given,
        None => String::from_str("sqlite::memory:"),
    }
}

/// The address to listen on: the configured one, or the default.
pub fn listen_address(configured: Option<String>) -> (address: String)
    ensures
        address@ == match configured {
            Some(given) => given@,
            None => default_listen_address(),
        },
{
    match configured {
        Some(given) => given,
        None => String::from_str("0.0.0.0:8080"),
    }
}

} // verus!
