//! The entities of the catalog as the client hands them out. They are plain
//! records: the client neither changes nor keeps them.

use vstd::prelude::*;

verus! {

/// An artist credit, as it stands on a recording or a release.
#[derive(Debug, Clone)]
pub struct ArtistCredit {
    pub name: String,
    pub artist: ArtistRef,
    pub joinphrase: String,
}

/// A reference to an artist inside another entity.
#[derive(Debug, Clone)]
pub struct ArtistRef {
    pub id: uuid::Uuid,
    pub name: String,
    pub sort_name: Option<String>,
    pub disambiguation: Option<String>,
}

/// An artist, as a lookup returns it.
#[derive(Debug, Clone)]
pub struct Artist {
    pub id: uuid::Uuid,
    pub name: String,
    pub sort_name: Option<String>,
    pub artist_type: Option<String>,
    pub country: Option<String>,
    pub disambiguation: Option<String>,
    pub life_span: Option<LifeSpan>,
    pub recordings: Vec<RecordingRef>,
    pub releases: Vec<ReleaseRef>,
}

/// The life span of an artist.
#[derive(Debug, Clone)]
pub struct LifeSpan {
    pub begin: Option<String>,
    pub end: Option<String>,
    pub ended: Option<bool>,
}

/// A reference to a recording inside another entity.
#[derive(Debug, Clone)]
pub struct RecordingRef {
    pub id: uuid::Uuid,
    pub title: String,
    pub length: Option<u64>,
    pub disambiguation: Option<String>,
}

/// A recording, as a lookup returns it.
#[derive(Debug, Clone)]
pub struct Recording {
    pub id: uuid::Uuid,
    pub title: String,
    pub length: Option<u64>,
    pub disambiguation: Option<String>,
    pub first_release_date: Option<String>,
    pub artist_credit: Vec<ArtistCredit>,
    pub releases: Vec<ReleaseRef>,
}

/// A reference to a release inside another entity.
#[derive(Debug, Clone)]
pub struct ReleaseRef {
    pub id: uuid::Uuid,
    pub title: String,
    pub status: Option<String>,
    pub date: Option<String>,
    pub country: Option<String>,
    pub release_group: Option<ReleaseGroupRef>,
}

/// A release, as a lookup returns it.
#[derive(Debug, Clone)]
pub struct Release {
    pub id: uuid::Uuid,
    pub title: String,
    pub status: Option<String>,
    pub date: Option<String>,
    pub country: Option<String>,
    pub artist_credit: Vec<ArtistCredit>,
    pub release_group: Option<ReleaseGroupRef>,
}

/// A reference to a release group.
#[derive(Debug, Clone)]
pub struct ReleaseGroupRef {
    pub id: uuid::Uuid,
    pub title: Option<String>,
    pub primary_type: Option<String>,
}

/// One page of a search for recordings.
#[derive(Debug, Clone)]
pub struct RecordingSearchResult {
    pub created: Option<String>,
    pub count: u32,
    pub offset: u32,
    pub recordings: Vec<RecordingSearchHit>,
}

/// A recording found by a search, with its score.
#[derive(Debug, Clone)]
pub struct RecordingSearchHit {
    pub id: uuid::Uuid,
    pub score: u8,
    pub title: String,
    pub length: Option<u64>,
    pub first_release_date: Option<String>,
    pub artist_credit: Vec<ArtistCredit>,
    pub releases: Vec<ReleaseRef>,
}

/// One page of a search for artists.
#[derive(Debug, Clone)]
pub struct ArtistSearchResult {
    pub created: Option<String>,
    pub count: u32,
    pub offset: u32,
    pub artists: Vec<ArtistSearchHit>,
}

/// An artist found by a search, with its score.
#[derive(Debug, Clone)]
pub struct ArtistSearchHit {
    pub id: uuid::Uuid,
    pub score: u8,
    pub name: String,
    pub sort_name: Option<String>,
    pub artist_type: Option<String>,
    pub country: Option<String>,
    pub disambiguation: Option<String>,
    pub life_span: Option<LifeSpan>,
}

/// One page of a search for releases.
#[derive(Debug, Clone)]
pub struct ReleaseSearchResult {
    pub created: Option<String>,
    pub count: u32,
    pub offset: u32,
    pub releases: Vec<ReleaseSearchHit>,
}

/// A release found by a search, with its score.
#[derive(Debug, Clone)]
pub struct ReleaseSearchHit {
    pub id: uuid::Uuid,
    pub score: u8,
    pub title: String,
    pub status: Option<String>,
    pub date: Option<String>,
    pub country: Option<String>,
    pub artist_credit: Vec<ArtistCredit>,
    pub release_group: Option<ReleaseGroupRef>,
}

} // verus!
