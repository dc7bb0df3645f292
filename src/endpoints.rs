//! The service's resources, one namespace each. Every operation here builds
//! the request for one call of the pipeline; reading the answer is left to
//! the transport.

use vstd::prelude::*;

use crate::client::Tidal;

pub mod albums;
pub mod artists;
pub mod playlists;
pub mod search;
pub mod tracks;

use crate::endpoints::albums::Albums;
use crate::endpoints::artists::Artists;
use crate::endpoints::playlists::Playlists;
use crate::endpoints::search::Search;
use crate::endpoints::tracks::Tracks;

verus! {

impl Tidal {
    /// The album operations of this client.
    pub fn albums(&self) -> (r: Albums)
        ensures
            *r.0 == *self,
    {
        Albums(self)
    }

    /// The artist operations of this client.
    pub fn artists(&self) -> (r: Artists)
        ensures
            *r.0 == *self,
    {
        Artists(self)
    }

    /// The playlist operations of this client.
    pub fn playlists(&self) -> (r: Playlists)
        ensures
            *r.0 == *self,
    {
        Playlists(self)
    }

    /// The search operations of this client.
    pub fn searches(&self) -> (r: Search)
        ensures
            *r.0 == *self,
    {
        Search(self)
    }

    /// The track operations of this client.
    pub fn tracks(&self) -> (r: Tracks)
        ensures
            *r.0 == *self,
    {
        Tracks(self)
    }
}

} // verus!
