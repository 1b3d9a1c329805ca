//! Bridge between host-side video buffer allocators / input callbacks and a
//! callback-driven capture-card SDK.
//!
//! The SDK drives its own capture threads and calls back into the host for two
//! things: memory (a provider hands out allocators, allocators hand out
//! buffers) and events (format changes and arriving frames). This crate
//! verifies the logic of that bridge: the status-code adapter, the
//! reference-count discipline on natively held handles, the per-specification
//! allocator cache, and the input-callback registration and dispatch rules.
//! The native side itself is modelled: its object table is
//! [`bridge::NativeAllocatorHeap`] / [`bridge::NativeBufferHeap`], and the
//! status codes it would answer with are passed in by the caller.

pub mod allocator;
pub mod bridge;
pub mod enums;
pub mod input;
pub mod util;
