//! Where the store is found.
use vstd::prelude::*;

verus! {

/// The store's address when none is configured.
pub open spec fn default_database_url() -> Seq<char> {
    "postgresql://postgres@localhost:5432"@
}

/// The address of the store: the configured one, or else the default.
pub fn resolve_database_url(configured: Option<String>) -> (r: String)
    ensures
        configured matches Some(u) ==> r@ == u@,
        configured is None ==> r@ == default_database_url(),
{
    match configured {
        Some(url) => url,
        None => String::from_str("postgresql://postgres@localhost:5432"),
    }
}

} // verus!
