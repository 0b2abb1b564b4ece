//! Client-side building blocks for the Backblaze B2 object-storage API.
//!
//! The heart of the crate is the streaming upload pipeline: a byte-source
//! abstraction with decorators that append a SHA-1 hex digest as a trailer
//! and meter the delivery rate, together with the plain data types and URL
//! helpers the surrounding HTTP calls need.

pub mod auth;
pub mod buckets;
pub mod error;
pub mod files;
pub mod hash;
pub mod source;
pub mod text;
pub mod throttle;
pub mod trailer;
pub mod upload;

pub use hash::HashAccumulator;
pub use trailer::DigestTrailer;
pub use trailer::DigestTrailingSource;
pub use source::ByteSource;
pub use source::MemorySource;
pub use source::SourceError;
