//! Resource-lifecycle and frame-synchronization core of a minimal real-time
//! GPU renderer.
//!
//! The hard problem this crate addresses is that GPU execution completes
//! after the command that requested it returns, so any resource referenced by
//! in-flight work must not be destroyed, rebound, or reused before the GPU
//! has actually finished with it.  The crate models every driver-visible
//! object by its plain handle value and verifies the bookkeeping around it:
//! the timeline clock, the deferred-destruction queue, the memory-class
//! selection and budget guards, the staging-buffer cursor, and the
//! swapchain / frame-slot protocol.  The native driver calls themselves are
//! performed by the embedding application, which is handed exact, verified
//! descriptions of what to do.

pub mod error;

pub mod context;

pub mod deletion_queue;

pub mod allocator;

pub mod staging;

pub mod surface;
