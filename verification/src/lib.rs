//! A client-side engine for the SunXDCC search service: it decodes the
//! service's pages of parallel lists into records and paginates over them,
//! leaving the HTTP transfer itself to the caller.

pub mod decimal;
pub mod endpoint;
pub mod error;
pub mod laws;
pub mod raw;
pub mod record;
pub mod results;

pub use error::Error;
pub use raw::RawResult;
pub use record::SearchResult;
pub use results::{search, Fetched, Poll, SearchResults};
