//! Search across artists, albums, playlists and tracks.

use vstd::prelude::*;

use crate::client::{is_call, Tidal};
use crate::request::{pair, ApiRequest, Method};
use crate::text::{decimal, decimal_string};

verus! {

/// The number of results per kind a search asks for when the caller names none.
pub const DEFAULT_LIMIT: u16 = 10;

/// The query of a search for `term` with at most `limit` results per kind.
pub open spec fn search_query(term: Seq<char>, limit: Option<u16>) -> Seq<(Seq<char>, Seq<char>)> {
    let n = match limit {
        Some(l) => l,
        None => DEFAULT_LIMIT,
    };
    seq![("query"@, term), ("limit"@, decimal(n as nat))]
}

/// Search operations.
pub struct Search<'a>(pub &'a Tidal);

impl<'a> Search<'a> {
    /// The search request for `term`: GET `/search` with `query` and `limit`
    /// (10 unless given).
    pub fn find(&self, term: &str, limit: Option<u16>) -> (r: ApiRequest)
        ensures
            is_call(r, *self.0, Method::Get, "/search"@, Some(search_query(term@, limit)), None, None),
    {
        let n: u16 = match limit {
            Some(l) => l,
            None => DEFAULT_LIMIT,
        };
        let mut params: Vec<(String, String)> = Vec::new();
        params.push(pair("query", term));
        let digits = decimal_string(n as u64);
        params.push(pair("limit", digits.as_str()));
        assert(params.deep_view() =~= search_query(term@, limit));
        self.0.get("/search", &params)
    }
}

} // verus!
