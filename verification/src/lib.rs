//! Client-side logic for the cursor-paginated Manifold Markets REST API.
//!
//! The crate holds everything that can be decided without touching the
//! network: how a paginated listing is walked page by page, how raw JSON is
//! turned into typed records, and which request each endpoint takes. Sending
//! the requests is left to the caller.
//!
//! See [`ManifoldClient`] for the endpoints and [`streams::PaginatedStream`]
//! for the listings.

pub mod client;
pub mod error;
pub mod header;
pub mod json;
pub mod page;
pub mod request;
pub mod run;
pub mod streams;
pub mod text;
pub mod time;
pub mod types;

pub use client::{ManifoldAuthorization, ManifoldClient};
