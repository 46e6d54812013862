//! What is decided about the requests that the daemon gets, and what it answers.

pub mod container;
pub mod container_create;
pub mod container_reinstall;
pub mod container_update;
pub mod firewall;
pub mod storage_volume;
