//! A conversation pipeline: turns are ingested into a per-user log, the log is
//! projected into the context of a completion request, and text is turned into
//! a published audio artifact. Every outside service is driven by the caller;
//! the library decides what to ask of it and what its answers mean.

pub mod turn;
pub mod error;
pub mod store;
pub mod ingest;
pub mod completion;
pub mod reply;
pub mod synthesis;
pub mod timestamp;
