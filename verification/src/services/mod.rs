//! Operations on containers, as decisions between pieces of outside work.
//!
//! An operation is written as its stages: each takes the answer to the question before it and
//! returns the tasks to do and what to ask next, or the end of the operation.

pub mod async_power;
pub mod container_lifecycle;
pub mod exit_wait;
pub mod mounts;
pub mod recipe;
pub mod reinstallation;
pub mod task;
