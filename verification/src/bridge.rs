//! The native side of the allocator bridge, modelled, and the trampolines that
//! adapt host objects to it.
//!
//! The real SDK hands out opaque, reference-counted object handles for custom
//! buffers, allocators and providers. This module models that object table
//! explicitly: a handle is an index into a heap of slots, a slot keeps the
//! adapted host object and (for allocators) its reference count, and the
//! reserved status code the native side would answer a registration call with
//! is passed in by the caller. Slots are never reused, so that "torn down
//! exactly once" is visible in the model: a slot's host object moves from
//! `Some` to `None` at most once, exactly when its last reference is released.

use crate::allocator::{BufferSpec, VideoBuffer, VideoBufferAllocator, VideoBufferAllocatorProvider};
use crate::util::SdkError;
use vstd::pervasive::unreached;
use vstd::prelude::*;

verus! {

/// The status/address pair a buffer's get-bytes trampoline answers with:
/// success and the address, or the error's own code and a null address.
pub open spec fn spec_bytes_response(res: Result<u64, SdkError>) -> (i32, u64) {
    match res {
        Ok(addr) => (0i32, addr),
        Err(e) => (e.spec_code(), 0u64),
    }
}

/// The status code a unit-result trampoline answers with: the success code, or
/// the error's own code.
pub open spec fn spec_unit_response(res: Result<(), SdkError>) -> i32 {
    match res {
        Ok(_) => 0i32,
        Err(e) => e.spec_code(),
    }
}

/// Table of native custom-buffer objects. A handle is an index; a live slot
/// holds the host buffer the native object forwards to, and a released slot
/// stays `None` forever (handles are not reused).
pub struct NativeBufferHeap<B: VideoBuffer> {
    slots: Vec<Option<B>>,
}

impl<B: VideoBuffer> View for NativeBufferHeap<B> {
    type V = Seq<Option<B>>;

    closed spec fn view(&self) -> Seq<Option<B>> {
        self.slots@
    }
}

impl<B: VideoBuffer> NativeBufferHeap<B> {
    /// A handle names a slot that still holds its host buffer.
    pub open spec fn live(self, h: int) -> bool {
        0 <= h < self@.len() && self@[h] is Some
    }

    /// The host buffer behind a live handle.
    pub open spec fn host_buffer(self, h: int) -> B
        recommends
            self.live(h),
    {
        self@[h]->Some_0
    }

    pub fn new() -> (r: Self)
        ensures
            r@ == Seq::<Option<B>>::empty(),
    {
        NativeBufferHeap { slots: Vec::new() }
    }

    /// Number of slots ever created, released ones included.
    pub fn n_slots(&self) -> (r: usize)
        ensures
            r == self@.len(),
    {
        self.slots.len()
    }

    /// Whether a handle is still live.
    pub fn is_live(&self, h: usize) -> (r: bool)
        requires
            h < self@.len(),
        ensures
            r == self.live(h as int),
    {
        self.slots[h].is_some()
    }
}

/// Register a host buffer as a native custom-buffer object.
///
/// `native_status` is the status code the native registration call answers
/// with. On success the buffer is adopted into a fresh slot and its handle
/// returned; on failure the buffer is dropped, nothing is left behind in the
/// table, and the decoded error is returned.
pub fn create_c_video_buffer<B: VideoBuffer>(
    heap: &mut NativeBufferHeap<B>,
    buffer: B,
    native_status: i32,
) -> (r: Result<usize, SdkError>)
    ensures
        SdkError::spec_is_ok(native_status) ==> (r matches Ok(h) && h == old(heap)@.len()
            && final(heap)@ == old(heap)@.push(Some(buffer))),
        !SdkError::spec_is_ok(native_status) ==> (r matches Err(e) && e == SdkError::spec_from(
            native_status,
        ) && final(heap)@ == old(heap)@),
{
    if SdkError::is_ok(native_status) {
        let h = heap.slots.len();
        heap.slots.push(Some(buffer));
        Ok(h)
    } else {
        Err(SdkError::from(native_status))
    }
}

/// Native get-bytes trampoline: forward to the host buffer behind the handle
/// and translate its answer into a status/address pair.
pub fn video_buffer_get_bytes<B: VideoBuffer>(heap: &NativeBufferHeap<B>, h: usize) -> (r: (
    i32,
    u64,
))
    requires
        heap.live(h as int),
    ensures
        r == spec_bytes_response(heap.host_buffer(h as int).bytes_result()),
{
    match &heap.slots[h] {
        Some(buffer) => match buffer.get_bytes() {
            Ok(addr) => (0i32, addr),
            Err(e) => (e.code(), 0u64),
        },
        None => unreached(),
    }
}

/// Native access-start trampoline: forward to the host buffer and translate
/// its answer into a status code.
pub fn video_buffer_start_access<B: VideoBuffer>(
    heap: &NativeBufferHeap<B>,
    h: usize,
    flags: u32,
) -> (r: i32)
    requires
        heap.live(h as int),
    ensures
        r == spec_unit_response(heap.host_buffer(h as int).start_access_result(flags)),
{
    match &heap.slots[h] {
        Some(buffer) => match buffer.start_access(flags) {
            Ok(_) => 0i32,
            Err(e) => e.code(),
        },
        None => unreached(),
    }
}

/// Native access-end trampoline: forward to the host buffer and translate its
/// answer into a status code.
pub fn video_buffer_end_access<B: VideoBuffer>(
    heap: &NativeBufferHeap<B>,
    h: usize,
    flags: u32,
) -> (r: i32)
    requires
        heap.live(h as int),
    ensures
        r == spec_unit_response(heap.host_buffer(h as int).end_access_result(flags)),
{
    match &heap.slots[h] {
        Some(buffer) => match buffer.end_access(flags) {
            Ok(_) => 0i32,
            Err(e) => e.code(),
        },
        None => unreached(),
    }
}

/// Native release trampoline for a buffer object: reclaim the host buffer
/// exactly once. The native side guarantees it calls this once per object and
/// never after any other operation on it; the `live` precondition is that
/// guarantee in the model.
pub fn video_buffer_release<B: VideoBuffer>(heap: &mut NativeBufferHeap<B>, h: usize)
    requires
        old(heap).live(h as int),
    ensures
        final(heap)@ == old(heap)@.update(h as int, None::<B>),
{
    heap.slots[h] = None;
}

/// One native allocator object: its reference count, the host allocator it
/// forwards to (reclaimed exactly when the count reaches zero), and the buffer
/// specification it was created for. The specification is model bookkeeping:
/// it lets contracts say which buffer class a handle serves.
pub struct AllocatorSlot<A: VideoBufferAllocator> {
    pub ref_count: u64,
    pub allocator: Option<A>,
    pub spec: BufferSpec,
}

/// Table of native allocator objects, with the SDK's reference-count
/// primitives. A handle is an index; handles are never reused.
///
/// Well-formedness ties liveness to the count: the host allocator is held
/// exactly while the reference count is positive. Every operation preserves
/// it, so a handle's host resource is torn down exactly once — at the release
/// that takes its count to zero — and never before.
pub struct NativeAllocatorHeap<A: VideoBufferAllocator> {
    slots: Vec<AllocatorSlot<A>>,
}

impl<A: VideoBufferAllocator> View for NativeAllocatorHeap<A> {
    type V = Seq<AllocatorSlot<A>>;

    closed spec fn view(&self) -> Seq<AllocatorSlot<A>> {
        self.slots@
    }
}

impl<A: VideoBufferAllocator> NativeAllocatorHeap<A> {
    /// A handle names a slot that still holds its host allocator.
    pub open spec fn live(self, h: int) -> bool {
        0 <= h < self@.len() && self@[h].allocator is Some
    }

    /// The slot's current reference count.
    pub open spec fn count(self, h: int) -> u64
        recommends
            0 <= h < self@.len(),
    {
        self@[h].ref_count
    }

    /// The buffer specification the handle was created for.
    pub open spec fn spec_of(self, h: int) -> BufferSpec
        recommends
            0 <= h < self@.len(),
    {
        self@[h].spec
    }

    /// The host allocator behind a live handle.
    pub open spec fn host_allocator(self, h: int) -> A
        recommends
            self.live(h),
    {
        self@[h].allocator->Some_0
    }

    /// Liveness agrees with the count in every slot.
    pub open spec fn wf(self) -> bool {
        forall|i: int|
            0 <= i < self@.len() ==> (#[trigger] self@[i].allocator is Some <==> self@[i].ref_count
                > 0)
    }

    pub fn new() -> (r: Self)
        ensures
            r@ == Seq::<AllocatorSlot<A>>::empty(),
            r.wf(),
    {
        NativeAllocatorHeap { slots: Vec::new() }
    }

    /// Number of slots ever created, released ones included.
    pub fn n_slots(&self) -> (r: usize)
        ensures
            r == self@.len(),
    {
        self.slots.len()
    }

    /// Whether a handle is still live.
    pub fn is_live(&self, h: usize) -> (r: bool)
        requires
            h < self@.len(),
        ensures
            r == self.live(h as int),
    {
        self.slots[h].allocator.is_some()
    }

    /// The handle's current reference count.
    pub fn ref_count(&self, h: usize) -> (r: u64)
        requires
            h < self@.len(),
        ensures
            r == self.count(h as int),
    {
        self.slots[h].ref_count
    }

    /// The buffer specification the handle was created for.
    pub fn buffer_spec_of(&self, h: usize) -> (r: BufferSpec)
        requires
            h < self@.len(),
        ensures
            r == self.spec_of(h as int),
    {
        self.slots[h].spec
    }

    /// The SDK's add-reference primitive: one more hold on the handle.
    pub fn add_ref(&mut self, h: usize)
        requires
            old(self).wf(),
            old(self).live(h as int),
            old(self).count(h as int) < u64::MAX,
        ensures
            final(self).wf(),
            final(self)@ == old(self)@.update(h as int, spec_add_ref_slot(old(self)@[h as int])),
    {
        let c = self.slots[h].ref_count;
        self.slots[h].ref_count = c + 1;
    }

    /// The SDK's release primitive: give up one hold on the handle. The host
    /// allocator is reclaimed exactly when the last hold goes away, and only
    /// then.
    pub fn release(&mut self, h: usize)
        requires
            old(self).wf(),
            old(self).live(h as int),
        ensures
            final(self).wf(),
            final(self)@ == old(self)@.update(
                h as int,
                spec_released_slot(old(self)@[h as int]),
            ),
            final(self).live(h as int) <==> old(self).count(h as int) > 1,
            final(self).count(h as int) == old(self).count(h as int) - 1,
    {
        let c = self.slots[h].ref_count;
        self.slots[h].ref_count = c - 1;
        if c == 1 {
            self.slots[h].allocator = None;
        }
    }
}

/// A slot after one more hold is taken.
pub open spec fn spec_add_ref_slot<A: VideoBufferAllocator>(s: AllocatorSlot<A>) -> AllocatorSlot<
    A,
>
    recommends
        s.ref_count < u64::MAX,
{
    AllocatorSlot { ref_count: (s.ref_count + 1) as u64, allocator: s.allocator, spec: s.spec }
}

/// A slot after one release: the count one lower, and the host allocator gone
/// exactly if that was the last hold.
pub open spec fn spec_released_slot<A: VideoBufferAllocator>(s: AllocatorSlot<A>) -> AllocatorSlot<
    A,
>
    recommends
        s.ref_count > 0,
{
    AllocatorSlot {
        ref_count: (s.ref_count - 1) as u64,
        allocator: if s.ref_count == 1 {
            None
        } else {
            s.allocator
        },
        spec: s.spec,
    }
}

/// In a well-formed table a handle's host resource is live exactly while its
/// reference count is positive: teardown is never early (a positive count
/// still holds the resource) and never missing (a zero count has already given
/// it up). Together with the contract of `release` — which reclaims the
/// resource exactly at the transition from one hold to none — this pins the
/// reference-count discipline for every sequence of add-reference and release
/// calls.
pub proof fn lemma_teardown_exactly_at_zero<A: VideoBufferAllocator>(
    heap: NativeAllocatorHeap<A>,
    h: int,
)
    requires
        heap.wf(),
        0 <= h < heap@.len(),
    ensures
        heap.live(h) <==> heap.count(h) > 0,
{
}

/// One native reference-count operation on a handle.
pub enum RefOp {
    AddRef,
    Release,
}

/// A slot after one reference-count operation.
pub open spec fn spec_op_slot<A: VideoBufferAllocator>(s: AllocatorSlot<A>, op: RefOp) -> AllocatorSlot<A> {
    match op {
        RefOp::AddRef => spec_add_ref_slot(s),
        RefOp::Release => spec_released_slot(s),
    }
}

/// Whether a sequence of reference-count operations is admissible on a slot:
/// each operation finds the handle still referenced — the native side only
/// operates on holds it owns — and an add-reference does not overflow the
/// count.
pub open spec fn spec_ops_valid<A: VideoBufferAllocator>(s: AllocatorSlot<A>, ops: Seq<RefOp>) -> bool
    decreases ops.len(),
{
    ops.len() == 0 || {
        &&& s.ref_count > 0
        &&& (ops[0] is AddRef ==> s.ref_count < u64::MAX)
        &&& spec_ops_valid(spec_op_slot(s, ops[0]), ops.drop_first())
    }
}

/// The slot after a sequence of reference-count operations.
pub open spec fn spec_apply_ops<A: VideoBufferAllocator>(s: AllocatorSlot<A>, ops: Seq<RefOp>) -> AllocatorSlot<A>
    decreases ops.len(),
{
    if ops.len() == 0 {
        s
    } else {
        spec_apply_ops(spec_op_slot(s, ops[0]), ops.drop_first())
    }
}

/// How many of the operations add a reference.
pub open spec fn spec_count_add_refs(ops: Seq<RefOp>) -> int
    decreases ops.len(),
{
    if ops.len() == 0 {
        0
    } else {
        (if ops[0] is AddRef {
            1int
        } else {
            0int
        }) + spec_count_add_refs(ops.drop_first())
    }
}

/// How many of the operations release a reference.
pub open spec fn spec_count_releases(ops: Seq<RefOp>) -> int
    decreases ops.len(),
{
    if ops.len() == 0 {
        0
    } else {
        (if ops[0] is Release {
            1int
        } else {
            0int
        }) + spec_count_releases(ops.drop_first())
    }
}

/// The reference-count discipline over whole histories: for every admissible
/// sequence of add-reference and release operations on a handle (applied with
/// the transitions that `add_ref` and `release` make), the count is exactly
/// the initial count plus the add-references minus the releases, and the host
/// resource is held exactly while that count is positive. So it is torn down
/// never early, never twice, and exactly at the release that takes the last
/// hold away.
pub proof fn lemma_refcount_discipline<A: VideoBufferAllocator>(s: AllocatorSlot<A>, ops: Seq<RefOp>)
    requires
        s.allocator is Some <==> s.ref_count > 0,
        spec_ops_valid(s, ops),
    ensures
        spec_apply_ops(s, ops).ref_count == s.ref_count + spec_count_add_refs(ops)
            - spec_count_releases(ops),
        spec_apply_ops(s, ops).allocator is Some <==> spec_apply_ops(s, ops).ref_count > 0,
        spec_apply_ops(s, ops).spec == s.spec,
    decreases ops.len(),
{
    if ops.len() > 0 {
        lemma_refcount_discipline(spec_op_slot(s, ops[0]), ops.drop_first());
    }
}

/// Register a host allocator as a native allocator object for one buffer
/// specification.
///
/// `native_status` is the status code the native registration call answers
/// with. On success the allocator is adopted into a fresh slot holding one
/// reference — the one handed back with the handle — and on failure the host
/// allocator is dropped, nothing is left behind in the table, and the decoded
/// error is returned.
pub fn create_c_allocator<A: VideoBufferAllocator>(
    heap: &mut NativeAllocatorHeap<A>,
    allocator: A,
    spec: BufferSpec,
    native_status: i32,
) -> (r: Result<usize, SdkError>)
    requires
        old(heap).wf(),
    ensures
        final(heap).wf(),
        SdkError::spec_is_ok(native_status) ==> (r matches Ok(h) && h == old(heap)@.len()
            && final(heap)@ == old(heap)@.push(
            AllocatorSlot { ref_count: 1u64, allocator: Some(allocator), spec },
        )),
        !SdkError::spec_is_ok(native_status) ==> (r matches Err(e) && e == SdkError::spec_from(
            native_status,
        ) && final(heap)@ == old(heap)@),
{
    if SdkError::is_ok(native_status) {
        let h = heap.slots.len();
        heap.slots.push(AllocatorSlot { ref_count: 1u64, allocator: Some(allocator), spec });
        Ok(h)
    } else {
        Err(SdkError::from(native_status))
    }
}

/// Native allocate trampoline: ask the host allocator behind the handle for a
/// buffer, register the result as a native buffer object, and translate the
/// outcome into a status code and an optional buffer handle.
///
/// The failure path leaks nothing: whenever the status is not success — the
/// host allocator refused, or the native registration did (`native_status`) —
/// the buffer table is unchanged and the freshly allocated host buffer, if
/// any, has been dropped.
pub fn allocator_allocate<A: VideoBufferAllocator>(
    allocators: &NativeAllocatorHeap<A>,
    buffers: &mut NativeBufferHeap<A::Buf>,
    h: usize,
    native_status: i32,
) -> (r: (i32, Option<usize>))
    requires
        allocators.live(h as int),
    ensures
        r.0 == 0 ==> SdkError::spec_is_ok(native_status) && (r.1 matches Some(bh) && bh == old(
            buffers,
        )@.len()) && final(buffers)@.len() == old(buffers)@.len() + 1 && final(buffers).live(
            old(buffers)@.len() as int,
        ) && (forall|i: int|
            0 <= i < old(buffers)@.len() ==> final(buffers)@[i] == old(buffers)@[i]),
        r.0 != 0 ==> final(buffers)@ == old(buffers)@ && r.1 is None,
        !SdkError::spec_is_ok(native_status) ==> r.0 != 0,
{
    let allocator = match &allocators.slots[h].allocator {
        Some(allocator) => allocator,
        None => unreached(),
    };
    match allocator.allocate() {
        Ok(buffer) => match create_c_video_buffer(buffers, buffer, native_status) {
            Ok(bh) => (0i32, Some(bh)),
            Err(e) => (e.code(), None),
        },
        Err(e) => {
            proof {
                crate::util::lemma_ok_is_not_an_error_code(e);
            }
            (e.code(), None)
        },
    }
}

/// The specification-to-handle map a cache sequence denotes (later entries
/// win; the bridge keeps specifications unique, so order never matters).
pub open spec fn cache_map_of(entries: Seq<(BufferSpec, usize)>) -> Map<BufferSpec, usize>
    decreases entries.len(),
{
    if entries.len() == 0 {
        Map::empty()
    } else {
        cache_map_of(entries.drop_last()).insert(entries.last().0, entries.last().1)
    }
}

proof fn lemma_cache_map_lookup(entries: Seq<(BufferSpec, usize)>, i: int)
    requires
        0 <= i < entries.len(),
        forall|j: int, k: int| 0 <= j < k < entries.len() ==> entries[j].0 != entries[k].0,
    ensures
        cache_map_of(entries).contains_key(entries[i].0),
        cache_map_of(entries)[entries[i].0] == entries[i].1,
    decreases entries.len(),
{
    if i < entries.len() - 1 {
        lemma_cache_map_lookup(entries.drop_last(), i);
    }
}

proof fn lemma_cache_map_absent(entries: Seq<(BufferSpec, usize)>, s: BufferSpec)
    requires
        forall|j: int| 0 <= j < entries.len() ==> entries[j].0 != s,
    ensures
        !cache_map_of(entries).contains_key(s),
    decreases entries.len(),
{
    if entries.len() > 0 {
        lemma_cache_map_absent(entries.drop_last(), s);
    }
}

/// What one get-allocator callback does, relating bridge and table before
/// and after: a hit answers the cached handle with one more reference and no
/// provider call; a miss asks the provider once and either caches a fresh
/// handle under two references or, on any failure, changes nothing.
pub open spec fn spec_get_allocator_post<P: VideoBufferAllocatorProvider>(
    pre: ProviderBridge<P>,
    post: ProviderBridge<P>,
    heap_pre: NativeAllocatorHeap<P::Alloc>,
    heap_post: NativeAllocatorHeap<P::Alloc>,
    spec: BufferSpec,
    native_status: i32,
    r: (i32, Option<usize>),
) -> bool {
    &&& (pre.cached().contains_key(spec) ==> ({
        let h = pre.cached()[spec];
        &&& r == (0i32, Some(h))
        &&& post.cache_entries() == pre.cache_entries()
        &&& post.provider_calls() == pre.provider_calls()
        &&& heap_post@ == heap_pre@.update(h as int, spec_add_ref_slot(heap_pre@[h as int]))
    }))
    &&& (!pre.cached().contains_key(spec) ==> ({
        &&& post.provider_calls() == pre.provider_calls().push(spec)
        &&& (r.0 == 0 ==> ({
            let h = heap_pre@.len() as int;
            &&& SdkError::spec_is_ok(native_status)
            &&& (r.1 matches Some(hh) && hh == h)
            &&& heap_post@.len() == heap_pre@.len() + 1
            &&& (forall|i: int| 0 <= i < heap_pre@.len() ==> heap_post@[i] == heap_pre@[i])
            &&& heap_post.live(h)
            &&& heap_post.count(h) == 2
            &&& heap_post.spec_of(h) == spec
            &&& (r.1 matches Some(hh) && post.cache_entries() == pre.cache_entries().push(
                (spec, hh),
            ) && post.cached() == pre.cached().insert(spec, hh))
        }))
        &&& (r.0 != 0 ==> heap_post@ == heap_pre@ && post.cache_entries() == pre.cache_entries()
            && r.1 is None)
        &&& (!SdkError::spec_is_ok(native_status) ==> r.0 != 0)
    }))
}

/// What one provider release does to the native allocator table: every cached
/// handle loses exactly the cache's own hold — and is torn down here exactly
/// if that hold was the last — while every other slot is untouched.
pub open spec fn spec_release_post<P: VideoBufferAllocatorProvider>(
    bridge: ProviderBridge<P>,
    heap_pre: NativeAllocatorHeap<P::Alloc>,
    heap_post: NativeAllocatorHeap<P::Alloc>,
) -> bool {
    &&& heap_post.wf()
    &&& heap_post@.len() == heap_pre@.len()
    &&& (forall|i: int|
        0 <= i < bridge.cache_entries().len()
            ==> heap_post@[(#[trigger] bridge.cache_entries()[i]).1 as int] == spec_released_slot(
            heap_pre@[bridge.cache_entries()[i].1 as int],
        ))
    &&& (forall|i: int|
        0 <= i < bridge.cache_entries().len() ==> (heap_post.live(
            (#[trigger] bridge.cache_entries()[i]).1 as int,
        ) <==> heap_pre.count(bridge.cache_entries()[i].1 as int) > 1))
    &&& (forall|h: int|
        0 <= h < heap_pre@.len() && !bridge.holds_handle(h) ==> heap_post@[h] == heap_pre@[h])
}

/// Adapter that presents a host allocator provider as a native provider
/// object.
///
/// It owns the specification-to-allocator cache: the first request for a
/// specification asks the host provider and caches the resulting native
/// handle, every later request for an equal specification answers from the
/// cache without consulting the host provider again. The cache itself holds
/// one reference on every cached handle, independent of the references the
/// native side takes on what it is handed back; `release` gives up exactly the
/// cache's own holds.
pub struct ProviderBridge<P: VideoBufferAllocatorProvider> {
    provider: P,
    cache: Vec<(BufferSpec, usize)>,
    calls: Ghost<Seq<BufferSpec>>,
}

impl<P: VideoBufferAllocatorProvider> ProviderBridge<P> {
    /// The cache, as the sequence of (specification, handle) pairs in
    /// insertion order.
    pub closed spec fn cache_entries(self) -> Seq<(BufferSpec, usize)> {
        self.cache@
    }

    /// The cache, as a map from specification to native allocator handle.
    pub open spec fn cached(self) -> Map<BufferSpec, usize> {
        cache_map_of(self.cache_entries())
    }

    /// The history of specifications passed to the host provider's
    /// `get_allocator`, in call order.
    pub closed spec fn provider_calls(self) -> Seq<BufferSpec> {
        self.calls@
    }

    /// Whether the cache holds a reference on this native handle.
    pub open spec fn holds_handle(self, h: int) -> bool {
        spec_handle_in_prefix(self.cache_entries(), self.cache_entries().len() as int, h)
    }

    /// The cache's own shape: distinct specifications and distinct handles.
    pub open spec fn cache_wf(self) -> bool {
        &&& forall|j: int, k: int|
            0 <= j < k < self.cache_entries().len() ==> self.cache_entries()[j].0
                != self.cache_entries()[k].0
        &&& forall|j: int, k: int|
            0 <= j < k < self.cache_entries().len() ==> self.cache_entries()[j].1
                != self.cache_entries()[k].1
    }

    /// Well-formedness against the native allocator table: the cache's shape,
    /// and every cached handle live in the table, under at least the cache's
    /// own hold, for the specification it was created for.
    pub open spec fn wf(self, heap: NativeAllocatorHeap<P::Alloc>) -> bool {
        &&& self.cache_wf()
        &&& heap.wf()
        &&& forall|i: int|
            0 <= i < self.cache_entries().len() ==> heap.live(
                (#[trigger] self.cache_entries()[i]).1 as int,
            )
        &&& forall|i: int|
            0 <= i < self.cache_entries().len() ==> heap.spec_of(
                (#[trigger] self.cache_entries()[i]).1 as int,
            ) == self.cache_entries()[i].0
    }

    /// Look the specification up in the cache.
    fn cache_lookup(&self, spec: BufferSpec) -> (r: Option<usize>)
        requires
            self.cache_wf(),
        ensures
            match r {
                Some(h) => self.cached().contains_key(spec) && self.cached()[spec] == h && exists|
                    i: int,
                |
                    0 <= i < self.cache_entries().len() && #[trigger] self.cache_entries()[i] == (
                    spec,
                    h,
                ),
                None => !self.cached().contains_key(spec) && forall|j: int|
                    0 <= j < self.cache_entries().len() ==> (
                    #[trigger] self.cache_entries()[j]).0 != spec,
            },
    {
        let n = self.cache.len();
        let mut i: usize = 0;
        while i < n
            invariant
                n == self.cache_entries().len(),
                0 <= i <= n,
                self.cache_wf(),
                forall|j: int| 0 <= j < i ==> (#[trigger] self.cache_entries()[j]).0 != spec,
            decreases n - i,
        {
            if self.cache[i].0 == spec {
                proof {
                    lemma_cache_map_lookup(self.cache_entries(), i as int);
                }
                return Some(self.cache[i].1);
            }
            i += 1;
        }
        proof {
            lemma_cache_map_absent(self.cache_entries(), spec);
        }
        None
    }

    /// The native get-allocator callback.
    ///
    /// On a cache hit the cached handle gains one reference — the one the
    /// native side is handed — and is returned; the host provider is not
    /// consulted (`provider_calls` is unchanged). On a miss the host provider
    /// is asked once; its allocator is registered as a native allocator object
    /// (`native_status` is the registration call's answer), which then carries
    /// two references — the native side's and the cache's — and is cached. No
    /// failure leaves anything behind: if the host provider or the native
    /// registration refuses, the table and the cache are unchanged and the
    /// decoded error's code is returned.
    pub fn get_allocator(
        &mut self,
        heap: &mut NativeAllocatorHeap<P::Alloc>,
        spec: BufferSpec,
        native_status: i32,
    ) -> (r: (i32, Option<usize>))
        requires
            old(self).wf(*old(heap)),
            old(self).cached().contains_key(spec) ==> old(heap).count(
                old(self).cached()[spec] as int,
            ) < u64::MAX,
        ensures
            final(self).wf(*final(heap)),
            spec_get_allocator_post(
                *old(self),
                *final(self),
                *old(heap),
                *final(heap),
                spec,
                native_status,
                r,
            ),
    {
        if let Some(h) = self.cache_lookup(spec) {
            proof {
                let i = choose|i: int|
                    0 <= i < self.cache_entries().len() && #[trigger] self.cache_entries()[i] == (
                    spec,
                    h,
                );
                assert(heap.live((self.cache_entries()[i]).1 as int));
            }
            heap.add_ref(h);
            proof {
                assert forall|i: int| 0 <= i < self.cache_entries().len() implies heap.live(
                    (#[trigger] self.cache_entries()[i]).1 as int,
                ) && heap.spec_of((self.cache_entries()[i]).1 as int) == self.cache_entries()[i].0
                by {
                    assert(old(heap).live((self.cache_entries()[i]).1 as int));
                    assert(old(heap).spec_of((self.cache_entries()[i]).1 as int)
                        == self.cache_entries()[i].0);
                }
            }
            return (0i32, Some(h));
        }
        proof {
            self.calls@ = self.calls@.push(spec);
        }
        match self.provider.get_allocator(spec) {
            Err(e) => {
                proof {
                    crate::util::lemma_ok_is_not_an_error_code(e);
                }
                (e.code(), None)
            },
            Ok(allocator) => {
                match create_c_allocator(heap, allocator, spec, native_status) {
                    Err(e) => {
                        proof {
                            crate::util::lemma_ok_is_not_an_error_code(e);
                        }
                        (e.code(), None)
                    },
                    Ok(h) => {
                        proof {
                            assert(heap.live(h as int));
                        }
                        heap.add_ref(h);
                        self.cache.push((spec, h));
                        proof {
                            assert(self.cache@.drop_last() =~= old(self).cache@);
                            assert forall|i: int|
                                0 <= i < self.cache_entries().len() implies heap.live(
                                (#[trigger] self.cache_entries()[i]).1 as int,
                            ) && heap.spec_of((self.cache_entries()[i]).1 as int)
                                == self.cache_entries()[i].0 by {
                                if i < self.cache_entries().len() - 1 {
                                    assert(old(heap).live((old(self).cache_entries()[i]).1 as int));
                                    assert(old(heap).spec_of((old(self).cache_entries()[i]).1 as int)
                                        == old(self).cache_entries()[i].0);
                                }
                            }
                        }
                        (0i32, Some(h))
                    },
                }
            },
        }
    }

    /// The native release callback, invoked once when the native side discards
    /// the provider object: give up the cache's own hold on every cached
    /// handle, then reclaim the bridge and the host provider.
    ///
    /// A cached handle is torn down here exactly if the cache's hold was the
    /// last one; a handle the native side still references stays live until
    /// those references are also released.
    pub fn release(self, heap: &mut NativeAllocatorHeap<P::Alloc>)
        requires
            self.wf(*old(heap)),
        ensures
            spec_release_post(self, *old(heap), *final(heap)),
    {
        let n = self.cache.len();
        let mut i: usize = 0;
        while i < n
            invariant
                n == self.cache_entries().len(),
                0 <= i <= n,
                self.wf(*old(heap)),
                heap.wf(),
                heap@.len() == old(heap)@.len(),
                forall|j: int|
                    0 <= j < i ==> heap@[(#[trigger] self.cache_entries()[j]).1 as int]
                        == spec_released_slot(old(heap)@[self.cache_entries()[j].1 as int]),
                forall|h: int|
                    0 <= h < old(heap)@.len() && !spec_handle_in_prefix(
                        self.cache_entries(),
                        i as int,
                        h,
                    ) ==> heap@[h] == old(heap)@[h],
            decreases n - i,
        {
            let h = self.cache[i].1;
            proof {
                assert(old(heap).live((self.cache_entries()[i as int]).1 as int));
                assert(!spec_handle_in_prefix(self.cache_entries(), i as int, h as int));
                assert(heap@[h as int] == old(heap)@[h as int]);
            }
            heap.release(h);
            proof {
                assert forall|hh: int|
                    0 <= hh < old(heap)@.len() && !spec_handle_in_prefix(
                        self.cache_entries(),
                        i + 1,
                        hh,
                    ) implies heap@[hh] == old(heap)@[hh] by {
                    assert(!spec_handle_in_prefix(self.cache_entries(), i as int, hh));
                    assert(self.cache_entries()[i as int].1 != hh);
                }
                assert forall|j: int|
                    0 <= j < i + 1 implies heap@[(#[trigger] self.cache_entries()[j]).1 as int]
                    == spec_released_slot(old(heap)@[self.cache_entries()[j].1 as int]) by {
                    if j < i {
                        assert(self.cache_entries()[j].1 != self.cache_entries()[i as int].1);
                    }
                }
            }
            i += 1;
        }
        proof {
            assert forall|i: int|
                0 <= i < self.cache_entries().len() implies (final(heap).live(
                (#[trigger] self.cache_entries()[i]).1 as int,
            ) <==> old(heap).count(self.cache_entries()[i].1 as int) > 1) by {
                let h = self.cache_entries()[i].1 as int;
                assert(heap@[h] == spec_released_slot(old(heap)@[h]));
                assert(old(heap).live(h));
            }
        }
    }
}

/// Whether one of the first `k` cache entries holds this native handle.
pub open spec fn spec_handle_in_prefix(
    entries: Seq<(BufferSpec, usize)>,
    k: int,
    h: int,
) -> bool {
    exists|j: int| 0 <= j < k && (#[trigger] entries[j]).1 == h
}

/// Register a host provider as a native provider object.
///
/// `native_status` is the status code the native registration call answers
/// with. On success the bridge starts with an empty cache and an empty
/// provider-call history; on failure the host provider is dropped, nothing is
/// left behind, and the decoded error is returned.
pub fn create_c_allocator_provider<P: VideoBufferAllocatorProvider>(
    provider: P,
    native_status: i32,
) -> (r: Result<ProviderBridge<P>, SdkError>)
    ensures
        SdkError::spec_is_ok(native_status) ==> (r matches Ok(b) && b.cache_entries()
            == Seq::<(BufferSpec, usize)>::empty() && b.provider_calls()
            == Seq::<BufferSpec>::empty()),
        !SdkError::spec_is_ok(native_status) ==> (r matches Err(e) && e == SdkError::spec_from(
            native_status,
        )),
{
    if SdkError::is_ok(native_status) {
        Ok(ProviderBridge { provider, cache: Vec::new(), calls: Ghost(Seq::empty()) })
    } else {
        Err(SdkError::from(native_status))
    }
}

} // verus!

