//! A client for the Gelbooru image board: it builds search requests with
//! tag filters, pagination and optional API-key authentication, and carries
//! the typed post records that a search returns.

mod error;
pub mod gelbooru;
pub mod query;

pub use error::BooruError;
