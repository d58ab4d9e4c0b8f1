//! Resource-memory binding layer for GPU buffers and images.
//!
//! A device collaborator creates raw resource handles and binds memory to
//! them; a pluggable allocator collaborator supplies blocks of device memory
//! matching the device-reported requirements. The factory operations in
//! [`factory`] orchestrate the two: create an unbound resource, allocate a
//! satisfying block, bind the block's memory at the block's range start, and
//! pair resource and block into one handle that owns both. Teardown destroys
//! the device resource first and only then releases its block, so the
//! allocator can never recycle memory that a live resource still uses.

pub mod allocator;
pub mod block;
pub mod device;
pub mod factory;
pub mod simple;
