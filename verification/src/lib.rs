//! Verified front end of a sharded record store: configuration, corruption
//! policy, and the read and write protocols that drive the storage engine.

pub mod buffer;
pub mod corruption;
pub mod error;
pub mod laws;
pub mod lifecycle;
pub mod logging;
pub mod multi_threaded;
pub mod replay;
pub mod shard_helpers;
pub mod single_threaded;
pub mod stream;
pub mod text;
