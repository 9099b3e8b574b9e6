//! A typed allocation layer over a minimal raw allocator abstraction.
//!
//! The base allocator hands out and takes back memory regions described by a
//! [`layout::Layout`]; this crate supplies the verified logic around it:
//! computing footprints without overflow, writing, duplicating and generating
//! values and sequences into fresh allocations, propagating runtime shape
//! metadata, and releasing regions with or without per-element teardown.

pub mod arena;
pub mod base;
pub mod caps;
pub mod ext;
pub mod generator;
pub mod handle;
pub mod layout;
pub mod teardown;
