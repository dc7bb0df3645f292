//! Playlist operations, among them the conditional addition of tracks.

use vstd::prelude::*;

use crate::client::{is_call, Tidal};
use crate::endpoints::search::search_query;
use crate::request::{pair, ApiRequest, Method};
use crate::text::{concat, decimal, decimal_string, join_decimals, joined_decimals};

verus! {

/// The path of a user's playlists.
pub open spec fn user_playlists_path(user_id: u32) -> Seq<char> {
    "/users/"@ + decimal(user_id as nat) + "/playlists"@
}

/// The path of the items of playlist `id`.
pub open spec fn items_path(id: Seq<char>) -> Seq<char> {
    "/playlists/"@ + id + "/items"@
}

/// The form that adds the tracks `ids` to a playlist: the ids joined by
/// commas, and what to do with tracks already there (`ADD` them again, or
/// `FAIL`).
pub open spec fn add_tracks_form(ids: Seq<u32>, add_dupes: bool) -> Seq<(Seq<char>, Seq<char>)> {
    seq![
        ("trackIds"@, joined_decimals(ids)),
        ("onDupes"@, if add_dupes { "ADD"@ } else { "FAIL"@ }),
    ]
}

/// Playlist operations.
pub struct Playlists<'a>(pub &'a Tidal);

impl<'a> Playlists<'a> {
    /// The request for playlist `id`: GET `/playlists/{id}`.
    pub fn get(&self, id: &str) -> (r: ApiRequest)
        ensures
            is_call(r, *self.0, Method::Get, "/playlists/"@ + id@, Some(Seq::empty()), None, None),
    {
        let url = concat("/playlists/", id);
        let params: Vec<(String, String)> = Vec::new();
        assert(params.deep_view() =~= Seq::<(Seq<char>, Seq<char>)>::empty());
        self.0.get(url.as_str(), &params)
    }

    /// The search request whose playlist results answer a search for `term`.
    pub fn search(&self, term: &str, limit: Option<u16>) -> (r: ApiRequest)
        ensures
            is_call(r, *self.0, Method::Get, "/search"@, Some(search_query(term@, limit)), None, None),
    {
        self.0.searches().find(term, limit)
    }

    /// The request for the tracks of playlist `id`: GET
    /// `/playlists/{id}/tracks`.
    pub fn tracks(&self, id: &str) -> (r: ApiRequest)
        ensures
            is_call(
                r,
                *self.0,
                Method::Get,
                "/playlists/"@ + id@ + "/tracks"@,
                Some(Seq::empty()),
                None,
                None,
            ),
    {
        let url = concat(concat("/playlists/", id).as_str(), "/tracks");
        let params: Vec<(String, String)> = Vec::new();
        assert(params.deep_view() =~= Seq::<(Seq<char>, Seq<char>)>::empty());
        self.0.get(url.as_str(), &params)
    }

    /// The request that creates a playlist of the session's user, with
    /// `title` and `description`: a form POST to `/users/{user}/playlists`.
    pub fn create(&self, title: &str, description: &str) -> (r: ApiRequest)
        ensures
            is_call(
                r,
                *self.0,
                Method::Post,
                user_playlists_path(self.0.session.user_id),
                None,
                Some(seq![("title"@, title@), ("description"@, description@)]),
                None,
            ),
    {
        let url = self.user_playlists_url();
        let mut form: Vec<(String, String)> = Vec::new();
        form.push(pair("title", title));
        form.push(pair("description", description));
        assert(form.deep_view() =~= seq![("title"@, title@), ("description"@, description@)]);
        self.0.post(url.as_str(), &form, None)
    }

    /// The first step of adding tracks to playlist `id`: the request that
    /// reads the current conditional-update token of its items.
    pub fn items_etag(&self, id: &str) -> (r: ApiRequest)
        ensures
            is_call(r, *self.0, Method::Get, items_path(id@), None, None, None),
    {
        let url = concat(concat("/playlists/", id).as_str(), "/items");
        self.0.etag(url.as_str())
    }

    /// The second step of adding the tracks `track_ids` to playlist `id`:
    /// the form POST to its items, conditional on `etag`, the token read in
    /// the first step. Once it succeeds, `get(id)` reads the playlist as it
    /// now stands.
    pub fn add_tracks(&self, id: &str, track_ids: &Vec<u32>, add_dupes: bool, etag: String) -> (r:
        ApiRequest)
        ensures
            is_call(
                r,
                *self.0,
                Method::Post,
                items_path(id@),
                None,
                Some(add_tracks_form(track_ids@, add_dupes)),
                Some(etag@),
            ),
    {
        let url = concat(concat("/playlists/", id).as_str(), "/items");
        let ids = join_decimals(track_ids);
        let on_dupes = if add_dupes {
            "ADD"
        } else {
            "FAIL"
        };
        let mut form: Vec<(String, String)> = Vec::new();
        form.push(pair("trackIds", ids.as_str()));
        form.push(pair("onDupes", on_dupes));
        assert(form.deep_view() =~= add_tracks_form(track_ids@, add_dupes));
        self.0.post(url.as_str(), &form, Some(etag))
    }

    /// The request for the playlists of the session's user: GET
    /// `/users/{user}/playlists`.
    pub fn user_playlists(&self) -> (r: ApiRequest)
        ensures
            is_call(
                r,
                *self.0,
                Method::Get,
                user_playlists_path(self.0.session.user_id),
                Some(Seq::empty()),
                None,
                None,
            ),
    {
        let url = self.user_playlists_url();
        let params: Vec<(String, String)> = Vec::new();
        assert(params.deep_view() =~= Seq::<(Seq<char>, Seq<char>)>::empty());
        self.0.get(url.as_str(), &params)
    }

    fn user_playlists_url(&self) -> (r: String)
        ensures
            r@ == user_playlists_path(self.0.session.user_id),
    {
        let user = decimal_string(self.0.user_id() as u64);
        concat(concat("/users/", user.as_str()).as_str(), "/playlists")
    }
}

} // verus!
