//! Artist operations.

use vstd::prelude::*;

use crate::client::{is_call, Tidal};
use crate::endpoints::search::search_query;
use crate::request::{ApiRequest, Method};
use crate::text::concat;

verus! {

/// Artist operations.
pub struct Artists<'a>(pub &'a Tidal);

impl<'a> Artists<'a> {
    /// The request for artist `id`: GET `/artists/{id}`.
    pub fn get(&self, id: &str) -> (r: ApiRequest)
        ensures
            is_call(r, *self.0, Method::Get, "/artists/"@ + id@, Some(Seq::empty()), None, None),
    {
        let url = concat("/artists/", id);
        let params: Vec<(String, String)> = Vec::new();
        assert(params.deep_view() =~= Seq::<(Seq<char>, Seq<char>)>::empty());
        self.0.get(url.as_str(), &params)
    }

    /// The search request whose artist results answer a search for `term`.
    pub fn search(&self, term: &str, limit: Option<u16>) -> (r: ApiRequest)
        ensures
            is_call(r, *self.0, Method::Get, "/search"@, Some(search_query(term@, limit)), None, None),
    {
        self.0.searches().find(term, limit)
    }

    /// The request for the albums of artist `id`: GET `/artists/{id}/albums`.
    pub fn albums(&self, id: &str) -> (r: ApiRequest)
        ensures
            is_call(
                r,
                *self.0,
                Method::Get,
                "/artists/"@ + id@ + "/albums"@,
                Some(Seq::empty()),
                None,
                None,
            ),
    {
        let url = concat(concat("/artists/", id).as_str(), "/albums");
        let params: Vec<(String, String)> = Vec::new();
        assert(params.deep_view() =~= Seq::<(Seq<char>, Seq<char>)>::empty());
        self.0.get(url.as_str(), &params)
    }
}

} // verus!
