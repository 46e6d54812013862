//! What the daemon keeps on the host for its containers.

pub mod engine;
pub mod network;
pub mod snapshot;
pub mod storage_volume;
