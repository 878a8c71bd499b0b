//! Value types of the storage side.

pub mod models;

pub use models::{CreatePlaylist, CreateUser, DownloadStatus};
