//! Health probe for a single network interface, in the Nagios plugin style.
//!
//! The crate evaluates observed interface facts against operator
//! expectations and produces per-severity message buckets, an output line
//! and an exit code.

pub mod config;
pub mod facts;
pub mod status;
pub mod text;
