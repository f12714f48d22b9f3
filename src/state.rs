use vstd::prelude::*;

use crate::text::concat;

verus! {

/// The search backend's address when none is configured.
pub const DEFAULT_BACKEND_URL: &'static str = "http://172.17.0.1:18080";

/// The search backend's base address: the configured one, else the default.
pub fn backend_url(configured: Option<String>) -> (r: String)
    ensures
        r@ == match configured {
            Some(u) => u@,
            None => DEFAULT_BACKEND_URL@,
        },
{
    match configured {
        Some(u) => u,
        None => String::from_str(DEFAULT_BACKEND_URL),
    }
}

/// The search endpoint under the backend's base address.
pub fn search_endpoint(base: &str) -> (r: String)
    ensures
        r@ == base@ + "/search"@,
{
    concat(base, "/search")
}

/// The query parameters of a search request, as (name, value) pairs.
pub fn search_params(query: &str) -> (r: Vec<(String, String)>)
    ensures
        r@.len() == 3,
        r@[0].0@ == "q"@ && r@[0].1@ == query@,
        r@[1].0@ == "format"@ && r@[1].1@ == "json"@,
        r@[2].0@ == "language"@ && r@[2].1@ == "en-US"@,
{
    let mut r = Vec::new();
    r.push((String::from_str("q"), String::from_str(query)));
    r.push((String::from_str("format"), String::from_str("json")));
    r.push((String::from_str("language"), String::from_str("en-US")));
    r
}

} // verus!
