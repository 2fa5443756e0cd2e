//! The two settings of the service: the backend's address and the API key.
//!
//! Both are kept in a configuration store outside the service. Looking an
//! entry up is the carrier's business; what to do with the outcome is decided
//! here.

use vstd::prelude::*;
use crate::fault::Fault;

verus! {

/// The name of the configuration store.
pub const CONFIG_STORE: &'static str = "fauna_env";

/// The entry of the store that holds the API key.
pub const API_KEY_ENTRY: &'static str = "key";

/// The entry of the store that holds the address of the GraphQL endpoint.
pub const URL_ENTRY: &'static str = "url";

/// The address of the GraphQL endpoint where the store names none.
pub const DEFAULT_URL: &'static str = "https://graphql.fauna.com/graphql";

/// The text of an entry of the store, where there is one.
pub open spec fn entry_text(entry: Option<String>) -> Option<Seq<char>> {
    match entry {
        Some(held) => Some(held@),
        None => None,
    }
}

/// The API key, given what the store holds under `key`. There is no default:
/// without an entry the service cannot talk to the backend.
pub fn get_api_key(entry: Option<String>) -> (key: Result<String, Fault>)
    ensures
        entry matches Some(held) ==> key == Ok::<String, Fault>(held),
        entry is None ==> key == Err::<String, Fault>(Fault::MissingApiKey),
{
    match entry {
        Some(held) => Ok(held),
        None => Err(Fault::MissingApiKey),
    }
}

/// The address of the GraphQL endpoint, given what the store holds under
/// `url`: the entry where there is one, `DEFAULT_URL` otherwise.
pub fn get_fauna_url(entry: Option<String>) -> (url: String)
    ensures
        entry matches Some(held) ==> url == held,
        entry is None ==> url@ == DEFAULT_URL@,
{
    match entry {
        Some(held) => held,
        None => DEFAULT_URL.to_owned(),
    }
}

} // verus!
