//! Topology-aware throttling of named background processes.
//!
//! The library decides which logical core a target process is pinned to,
//! which running processes are targets, which platform calls a sweep makes
//! and in what order, how each answer is recorded, and when the periodic
//! scheduler runs a sweep. The platform calls themselves are made by the
//! caller, which hands each answer back.

pub mod topology;
pub mod matcher;
pub mod policy;
pub mod sweep;
pub mod scheduler;
pub mod summary;
