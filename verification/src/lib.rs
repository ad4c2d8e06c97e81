//! Backs up the running configuration of network devices: what to run for a
//! device, how its output is filtered, and how the archive is committed.

pub mod devices;
pub mod fetch;
pub mod filter;
pub mod pattern;
pub mod process;
pub mod repo;
pub mod text;
