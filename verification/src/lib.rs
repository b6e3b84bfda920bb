//! Building and locating the compiler drivers that Dynlint runs.
//!
//! The library decides what a driver package contains, how a driver's
//! reported version is read and compared with the running tool's version,
//! and in which order the steps of finding or building a driver happen.
//! File system, process and environment access stay with the caller.

pub mod manifest;
pub mod version;
pub mod builder;
pub mod lookup;
pub mod precedence;
