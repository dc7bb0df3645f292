//! Album operations.

use vstd::prelude::*;

use crate::client::{is_call, Tidal};
use crate::endpoints::search::search_query;
use crate::request::{ApiRequest, Method};
use crate::text::concat;

verus! {

/// Album operations.
pub struct Albums<'a>(pub &'a Tidal);

impl<'a> Albums<'a> {
    /// The request for album `id`: GET `/albums/{id}`.
    pub fn get(&self, id: &str) -> (r: ApiRequest)
        ensures
            is_call(r, *self.0, Method::Get, "/albums/"@ + id@, Some(Seq::empty()), None, None),
    {
        let url = concat("/albums/", id);
        let params: Vec<(String, String)> = Vec::new();
        assert(params.deep_view() =~= Seq::<(Seq<char>, Seq<char>)>::empty());
        self.0.get(url.as_str(), &params)
    }

    /// The search request whose album results answer a search for `term`.
    pub fn search(&self, term: &str, limit: Option<u16>) -> (r: ApiRequest)
        ensures
            is_call(r, *self.0, Method::Get, "/search"@, Some(search_query(term@, limit)), None, None),
    {
        self.0.searches().find(term, limit)
    }

    /// The request for the tracks of album `id`: GET `/albums/{id}/tracks`.
    pub fn tracks(&self, id: &str) -> (r: ApiRequest)
        ensures
            is_call(
                r,
                *self.0,
                Method::Get,
                "/albums/"@ + id@ + "/tracks"@,
                Some(Seq::empty()),
                None,
                None,
            ),
    {
        let url = concat(concat("/albums/", id).as_str(), "/tracks");
        let params: Vec<(String, String)> = Vec::new();
        assert(params.deep_view() =~= Seq::<(Seq<char>, Seq<char>)>::empty());
        self.0.get(url.as_str(), &params)
    }
}

} // verus!
