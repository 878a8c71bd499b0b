//! The catalog client: limiter, retry policy, response classifier and the
//! requests of the six operations.

pub mod classify;
pub mod client;
pub mod error;
pub mod limiter;
pub mod models;
pub mod retry;
pub mod text;

pub use client::MusicBrainzClient;
pub use error::{MbError, MbResult};
pub use limiter::{Admission, RateLimiter};
