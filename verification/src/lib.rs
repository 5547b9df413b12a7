//! Verified glue logic for driving a native geodetic-projection library.
//!
//! The native library does all projection mathematics; what this crate
//! verifies is the protocol around one transform call: the order in which
//! the native resources must be released, that each is released exactly
//! once and none is leaked, and how the post-call error code is judged.

pub mod lifecycle;
pub mod transform;
