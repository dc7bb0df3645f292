//! The service's entities. Every field is optional: the service leaves
//! fields out depending on context, and an absent field means unknown.

use vstd::prelude::*;

pub mod album;
pub mod artist;
pub mod playlist;

verus! {

/// The kind of an entity, as the service tags it.
#[derive(Clone, Copy, Debug, PartialEq, Eq, Structural)]
pub enum ModelType {
    Album,
    Artist,
    Editorial,
    Main,
    User,
    Podcast,
    Contributor,
}

/// An audio mode a recording is offered in.
#[derive(Clone, Copy, Debug, PartialEq, Eq, Structural)]
pub enum AudioMode {
    Mono,
    Stereo,
    Sony360RealityAudio,
    DolbyAtmos,
}

/// The quality a recording is offered in.
#[derive(Clone, Copy, Debug, PartialEq, Eq, Structural)]
pub enum AudioQuality {
    Lossless,
    Master,
    High,
    Low,
}

} // verus!
