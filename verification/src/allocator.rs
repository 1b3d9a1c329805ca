//! Host-side contracts for custom video buffer allocation.
//!
//! The native SDK asks the host for memory in three stages: a *provider*
//! returns an *allocator* for each distinct buffer specification, and an
//! allocator returns individual *buffers*. Implementations of these traits are
//! supplied by users of the crate (for example, an allocator backed by pinned
//! GPU-visible memory); the bridge in [`crate::bridge`] adapts them to the
//! native callback shape.

use crate::util::SdkError;
use vstd::prelude::*;

verus! {

/// Identifying tuple for one class of video buffers, constructed per native
/// request. One allocator exists per distinct `BufferSpec` observed by a given
/// provider instance.
#[derive(Clone, Copy, Debug, PartialEq, Eq, Hash, Structural)]
pub struct BufferSpec {
    /// Total buffer size in bytes.
    pub buffer_size: u32,
    /// Frame width in pixels.
    pub width: u32,
    /// Frame height in pixels.
    pub height: u32,
    /// Bytes per row (stride).
    pub row_bytes: u32,
    /// Pixel format, as the raw native code.
    pub pixel_format: u32,
}

/// A custom video buffer that supplies its own memory.
///
/// The buffer exposes the address of host-visible memory where the native side
/// reads and writes pixel data, and receives advisory notifications when an
/// access begins or ends.
pub trait VideoBuffer: Sized {
    /// The address `get_bytes` answers with, as a function of the buffer
    /// alone: the address must be stable for the object's lifetime, so
    /// repeated calls must agree.
    spec fn bytes_result(&self) -> Result<u64, SdkError>;

    /// What `start_access` answers for given access flags.
    spec fn start_access_result(&self, flags: u32) -> Result<(), SdkError>;

    /// What `end_access` answers for given access flags.
    spec fn end_access_result(&self, flags: u32) -> Result<(), SdkError>;

    /// Return the address of the buffer memory. Must be callable repeatedly
    /// and must return a stable address for the object's lifetime.
    fn get_bytes(&self) -> (r: Result<u64, SdkError>)
        ensures
            r == self.bytes_result(),
    ;

    /// Called before the native side accesses the buffer, e.g. to prepare or
    /// map memory. Must return promptly: it runs on the native capture thread.
    fn start_access(&self, flags: u32) -> (r: Result<(), SdkError>)
        ensures
            r == self.start_access_result(flags),
    ;

    /// Called after the native side finishes accessing the buffer, e.g. to
    /// trigger asynchronous follow-up work. Must return promptly.
    fn end_access(&self, flags: u32) -> (r: Result<(), SdkError>)
        ensures
            r == self.end_access_result(flags),
    ;
}

/// A factory for video buffers of one fixed specification.
///
/// `allocate` may be called many times to build a pool of buffers; each call
/// must return an independent buffer instance, so no determinism is promised
/// of its result.
pub trait VideoBufferAllocator: Sized {
    /// The concrete buffer type this allocator produces.
    type Buf: VideoBuffer;

    /// Allocate a new, independent video buffer.
    fn allocate(&self) -> Result<Self::Buf, SdkError>;
}

/// A factory of factories: returns an allocator for each requested buffer
/// specification.
///
/// The bridge caches the first successful answer per distinct specification
/// and never asks again for it, so two calls with an equal specification must
/// produce behaviorally interchangeable allocators.
pub trait VideoBufferAllocatorProvider: Sized {
    /// The concrete allocator type this provider produces.
    type Alloc: VideoBufferAllocator;

    /// Return an allocator for the given buffer specification.
    fn get_allocator(&self, spec: BufferSpec) -> Result<Self::Alloc, SdkError>;
}

} // verus!
