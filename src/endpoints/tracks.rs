//! Track operations.

use vstd::prelude::*;

use crate::client::{is_call, Tidal};
use crate::endpoints::search::search_query;
use crate::request::{ApiRequest, Method};

verus! {

/// Track operations.
pub struct Tracks<'a>(pub &'a Tidal);

impl<'a> Tracks<'a> {
    /// The search request whose track results answer a search for `term`.
    pub fn search(&self, term: &str, limit: Option<u16>) -> (r: ApiRequest)
        ensures
            is_call(r, *self.0, Method::Get, "/search"@, Some(search_query(term@, limit)), None, None),
    {
        self.0.searches().find(term, limit)
    }
}

} // verus!
