//! An exclusive, same-machine lock on a cache folder, taken through a marker file.
//!
//! The library decides where the marker file lives and what the guard does at
//! each step of taking and giving back the lock; the caller performs the
//! filesystem work that each step names and reports how it went.

pub mod path;
pub mod session;
pub mod laws;
