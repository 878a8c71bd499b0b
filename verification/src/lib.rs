//! A rate-limited, retrying client core for the MusicBrainz catalog, with
//! the storage-side value types that travel alongside it.
//!
//! The crate holds the decisions of the client: when a request may leave,
//! how a response is classified, when an attempt is repeated and after how
//! long, and what each request looks like on the wire. Sending, sleeping and
//! decoding happen around it.

pub mod db;
pub mod musicbrainz;

pub use db::{CreatePlaylist, CreateUser, DownloadStatus};
pub use musicbrainz::{MbError, MbResult, MusicBrainzClient};
