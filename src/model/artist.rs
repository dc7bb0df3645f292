//! Artists.

use vstd::prelude::*;

use crate::model::ModelType;

verus! {

/// The role an artist has on a release.
#[derive(Clone, Copy, Debug, PartialEq, Eq, Structural)]
pub enum ArtistType {
    Artist,
    Contributor,
}

/// An artist.
#[derive(Debug, PartialEq, Eq)]
pub struct Artist {
    pub id: Option<u32>,
    pub name: Option<String>,
    pub artist_types: Option<Vec<ArtistType>>,
    pub url: Option<String>,
    pub picture: Option<String>,
    pub popularity: Option<u16>,
    pub _type: Option<ModelType>,
}

} // verus!
