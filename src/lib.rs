//! Build entries: named descriptions of a source tree and of how to configure,
//! build and install it with CMake.
//!
//! The library decides; it performs no I/O. Probing directories, fetching
//! sources and running the build tool are left to the caller, which hands the
//! outcome of each probe back to the library and runs the commands it returns.

pub mod builder;
pub mod entry;
pub mod laws;
pub mod lifecycle;
pub mod paths;
pub mod text;
