//! A batch file-shrinking library: it identifies media files, drives an
//! external compressor as a supervised child process, tracks idempotency
//! through an embedded marker, and atomically swaps the result into place.
//!
//! The library holds the decision logic: the marker codec, the tool
//! selector and its argv contracts, the temp-name allocator, the
//! per-invocation process supervisor and the conversion transaction as
//! event-driven state machines, and the statistics aggregator. A thin
//! unverified shell performs the actual process and filesystem work and
//! feeds the outcomes back in as events.

pub mod comment;
pub mod delta;
pub mod error;
pub mod image;
pub mod options;
pub mod pathname;
pub mod shrink;
pub mod stats;
pub mod supervisor;
pub mod temp;
pub mod text;
pub mod transaction;
pub mod video;
