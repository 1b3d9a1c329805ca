use decklink::allocator::{
    BufferSpec, VideoBuffer, VideoBufferAllocator, VideoBufferAllocatorProvider,
};
use decklink::bridge::{
    allocator_allocate, create_c_allocator, create_c_allocator_provider, create_c_video_buffer,
    video_buffer_end_access, video_buffer_get_bytes, video_buffer_release,
    video_buffer_start_access, NativeAllocatorHeap, NativeBufferHeap,
};
use decklink::util::SdkError;
use std::cell::Cell;
use std::rc::Rc;

const OK: i32 = 0;

fn spec_a() -> BufferSpec {
    BufferSpec { buffer_size: 4 * 256 * 256, width: 256, height: 256, row_bytes: 4 * 256, pixel_format: 0x42 }
}

fn spec_b() -> BufferSpec {
    BufferSpec { buffer_size: 2 * 720 * 576, width: 720, height: 576, row_bytes: 2 * 720, pixel_format: 0x55 }
}

/// Counts constructor/destructor pairs of host objects hanging off one test
/// provider, so leaks and double frees show up as a nonzero balance.
#[derive(Default)]
struct HostCounters {
    buffers_alive: Cell<i64>,
    allocators_alive: Cell<i64>,
    provider_calls: Cell<u64>,
}

struct TestBuffer {
    addr: u64,
    counters: Rc<HostCounters>,
}

impl TestBuffer {
    fn new(addr: u64, counters: Rc<HostCounters>) -> TestBuffer {
        counters.buffers_alive.set(counters.buffers_alive.get() + 1);
        TestBuffer { addr, counters }
    }
}

impl Drop for TestBuffer {
    fn drop(&mut self) {
        self.counters.buffers_alive.set(self.counters.buffers_alive.get() - 1);
    }
}

impl VideoBuffer for TestBuffer {
    fn bytes_result(&self) -> Result<u64, SdkError> {
        self.get_bytes()
    }

    fn start_access_result(&self, flags: u32) -> Result<(), SdkError> {
        self.start_access(flags)
    }

    fn end_access_result(&self, flags: u32) -> Result<(), SdkError> {
        self.end_access(flags)
    }

    fn get_bytes(&self) -> Result<u64, SdkError> {
        if self.addr == 0 {
            Err(SdkError::POINTER)
        } else {
            Ok(self.addr)
        }
    }

    fn start_access(&self, _flags: u32) -> Result<(), SdkError> {
        Ok(())
    }

    fn end_access(&self, _flags: u32) -> Result<(), SdkError> {
        Ok(())
    }
}

struct TestAllocator {
    base_addr: u64,
    next: Cell<u64>,
    fail: bool,
    counters: Rc<HostCounters>,
}

impl TestAllocator {
    fn new(base_addr: u64, fail: bool, counters: Rc<HostCounters>) -> TestAllocator {
        counters.allocators_alive.set(counters.allocators_alive.get() + 1);
        TestAllocator { base_addr, next: Cell::new(0), fail, counters }
    }
}

impl Drop for TestAllocator {
    fn drop(&mut self) {
        self.counters.allocators_alive.set(self.counters.allocators_alive.get() - 1);
    }
}

impl VideoBufferAllocator for TestAllocator {
    type Buf = TestBuffer;

    fn allocate(&self) -> Result<TestBuffer, SdkError> {
        if self.fail {
            return Err(SdkError::OUTOFMEMORY);
        }
        let n = self.next.get();
        self.next.set(n + 1);
        Ok(TestBuffer::new(self.base_addr + 0x1000 * n, self.counters.clone()))
    }
}

struct TestProvider {
    fail: bool,
    counters: Rc<HostCounters>,
}

impl VideoBufferAllocatorProvider for TestProvider {
    type Alloc = TestAllocator;

    fn get_allocator(&self, spec: BufferSpec) -> Result<TestAllocator, SdkError> {
        self.counters.provider_calls.set(self.counters.provider_calls.get() + 1);
        if self.fail {
            return Err(SdkError::FAIL);
        }
        Ok(TestAllocator::new(0x1_0000_0000 + (u64::from(spec.pixel_format) << 16), false, self.counters.clone()))
    }
}

#[test]
fn buffer_trampolines_forward_and_release_once() {
    let counters = Rc::new(HostCounters::default());
    let mut buffers: NativeBufferHeap<TestBuffer> = NativeBufferHeap::new();

    let h = create_c_video_buffer(&mut buffers, TestBuffer::new(0xABCD, counters.clone()), OK)
        .expect("registration succeeds");
    assert_eq!(h, 0);
    assert_eq!(buffers.n_slots(), 1);
    assert!(buffers.is_live(h));
    assert_eq!(counters.buffers_alive.get(), 1);

    assert_eq!(video_buffer_get_bytes(&buffers, h), (0, 0xABCD));
    assert_eq!(video_buffer_start_access(&buffers, h, 3), 0);
    assert_eq!(video_buffer_end_access(&buffers, h, 3), 0);

    video_buffer_release(&mut buffers, h);
    assert!(!buffers.is_live(h));
    assert_eq!(counters.buffers_alive.get(), 0, "released exactly once, nothing leaked");
}

#[test]
fn failed_buffer_registration_drops_the_buffer_and_reports_the_error() {
    let counters = Rc::new(HostCounters::default());
    let mut buffers: NativeBufferHeap<TestBuffer> = NativeBufferHeap::new();

    let r = create_c_video_buffer(&mut buffers, TestBuffer::new(0x1, counters.clone()), -0x02);
    assert_eq!(r, Err(SdkError::OUTOFMEMORY));
    assert_eq!(buffers.n_slots(), 0);
    assert_eq!(counters.buffers_alive.get(), 0, "no leak on failed registration");
}

#[test]
fn buffer_error_is_forwarded_as_its_code() {
    let counters = Rc::new(HostCounters::default());
    let mut buffers: NativeBufferHeap<TestBuffer> = NativeBufferHeap::new();
    let h = create_c_video_buffer(&mut buffers, TestBuffer::new(0, counters.clone()), OK).unwrap();
    assert_eq!(video_buffer_get_bytes(&buffers, h), (SdkError::POINTER.code(), 0));
}

#[test]
fn add_ref_and_release_tear_down_exactly_after_the_last_release() {
    let counters = Rc::new(HostCounters::default());
    let mut heap: NativeAllocatorHeap<TestAllocator> = NativeAllocatorHeap::new();

    let h = create_c_allocator(
        &mut heap,
        TestAllocator::new(0x10_0000, false, counters.clone()),
        spec_a(),
        OK,
    )
    .expect("registration succeeds");
    assert_eq!(heap.ref_count(h), 1);
    assert_eq!(counters.allocators_alive.get(), 1);

    heap.add_ref(h);
    heap.add_ref(h);
    assert_eq!(heap.ref_count(h), 3);

    heap.release(h);
    assert!(heap.is_live(h), "still referenced: not torn down early");
    assert_eq!(counters.allocators_alive.get(), 1);
    heap.release(h);
    assert!(heap.is_live(h));
    assert_eq!(counters.allocators_alive.get(), 1);
    heap.release(h);
    assert!(!heap.is_live(h), "torn down exactly at the last release");
    assert_eq!(heap.ref_count(h), 0);
    assert_eq!(counters.allocators_alive.get(), 0, "torn down exactly once");
}

#[test]
fn provider_bridge_caches_one_allocator_per_spec() {
    let counters = Rc::new(HostCounters::default());
    let mut heap: NativeAllocatorHeap<TestAllocator> = NativeAllocatorHeap::new();
    let provider = TestProvider { fail: false, counters: counters.clone() };
    let mut bridge = create_c_allocator_provider(provider, OK).expect("registration succeeds");

    let (s1, h1) = bridge.get_allocator(&mut heap, spec_a(), OK);
    assert_eq!(s1, 0);
    let h1 = h1.expect("a handle on success");
    assert_eq!(counters.provider_calls.get(), 1);
    assert_eq!(heap.ref_count(h1), 2, "one native hold, one cache hold");
    assert_eq!(heap.buffer_spec_of(h1), spec_a());

    let (s2, h2) = bridge.get_allocator(&mut heap, spec_a(), OK);
    assert_eq!(s2, 0);
    assert_eq!(h2, Some(h1), "an equal spec answers with the same underlying allocator");
    assert_eq!(counters.provider_calls.get(), 1, "the host provider is asked once per distinct spec");
    assert_eq!(heap.ref_count(h1), 3);

    let (s3, h3) = bridge.get_allocator(&mut heap, spec_b(), OK);
    assert_eq!(s3, 0);
    let h3 = h3.expect("a handle on success");
    assert_ne!(h3, h1);
    assert_eq!(counters.provider_calls.get(), 2);
    assert_eq!(heap.buffer_spec_of(h3), spec_b());

    // native holds: 2 on h1, 1 on h3; cache holds one on each
    heap.release(h1);
    heap.release(h1);
    heap.release(h3);
    bridge.release(&mut heap);
    assert!(!heap.is_live(h1));
    assert!(!heap.is_live(h3));
    assert_eq!(counters.allocators_alive.get(), 0);
}

#[test]
fn provider_failure_creates_no_cache_entry() {
    let counters = Rc::new(HostCounters::default());
    let mut heap: NativeAllocatorHeap<TestAllocator> = NativeAllocatorHeap::new();
    let provider = TestProvider { fail: true, counters: counters.clone() };
    let mut bridge = create_c_allocator_provider(provider, OK).expect("registration succeeds");

    let (s1, h1) = bridge.get_allocator(&mut heap, spec_a(), OK);
    assert_eq!(s1, SdkError::FAIL.code());
    assert_eq!(h1, None);
    assert_eq!(heap.n_slots(), 0);

    // a retry asks the host provider again: nothing was cached
    let (s2, _) = bridge.get_allocator(&mut heap, spec_a(), OK);
    assert_eq!(s2, SdkError::FAIL.code());
    assert_eq!(counters.provider_calls.get(), 2);
    bridge.release(&mut heap);
}

#[test]
fn failed_native_registration_of_an_allocator_leaks_nothing() {
    let counters = Rc::new(HostCounters::default());
    let mut heap: NativeAllocatorHeap<TestAllocator> = NativeAllocatorHeap::new();
    let provider = TestProvider { fail: false, counters: counters.clone() };
    let mut bridge = create_c_allocator_provider(provider, OK).expect("registration succeeds");

    let (s, h) = bridge.get_allocator(&mut heap, spec_a(), -0x08);
    assert_eq!(s, SdkError::FAIL.code());
    assert_eq!(h, None);
    assert_eq!(heap.n_slots(), 0);
    assert_eq!(counters.provider_calls.get(), 1, "the host provider was asked");
    assert_eq!(counters.allocators_alive.get(), 0, "its allocator was dropped again");
    bridge.release(&mut heap);
}

#[test]
fn releasing_the_provider_keeps_natively_referenced_allocators_alive() {
    let counters = Rc::new(HostCounters::default());
    let mut heap: NativeAllocatorHeap<TestAllocator> = NativeAllocatorHeap::new();
    let provider = TestProvider { fail: false, counters: counters.clone() };
    let mut bridge = create_c_allocator_provider(provider, OK).expect("registration succeeds");

    let (_, h1) = bridge.get_allocator(&mut heap, spec_a(), OK);
    let h1 = h1.unwrap();
    let (_, h2) = bridge.get_allocator(&mut heap, spec_b(), OK);
    let h2 = h2.unwrap();

    // the native side gives up its hold on h2 but keeps the one on h1
    heap.release(h2);

    bridge.release(&mut heap);
    assert!(heap.is_live(h1), "an outstanding native reference keeps the allocator valid");
    assert_eq!(heap.ref_count(h1), 1);
    assert!(!heap.is_live(h2), "no outstanding reference: torn down with the provider");
    assert_eq!(counters.allocators_alive.get(), 1);

    heap.release(h1);
    assert!(!heap.is_live(h1));
    assert_eq!(counters.allocators_alive.get(), 0);
}

#[test]
fn allocate_failure_paths_leak_no_buffer() {
    let counters = Rc::new(HostCounters::default());
    let mut heap: NativeAllocatorHeap<TestAllocator> = NativeAllocatorHeap::new();
    let mut buffers: NativeBufferHeap<TestBuffer> = NativeBufferHeap::new();

    let failing = create_c_allocator(
        &mut heap,
        TestAllocator::new(0x20_0000, true, counters.clone()),
        spec_a(),
        OK,
    )
    .unwrap();
    let (s, bh) = allocator_allocate(&heap, &mut buffers, failing, OK);
    assert_eq!(s, SdkError::OUTOFMEMORY.code());
    assert_eq!(bh, None);
    assert_eq!(buffers.n_slots(), 0);

    let working = create_c_allocator(
        &mut heap,
        TestAllocator::new(0x30_0000, false, counters.clone()),
        spec_a(),
        OK,
    )
    .unwrap();
    let (s, bh) = allocator_allocate(&heap, &mut buffers, working, -0x06);
    assert_eq!(s, SdkError::HANDLE.code());
    assert_eq!(bh, None);
    assert_eq!(buffers.n_slots(), 0);
    assert_eq!(counters.buffers_alive.get(), 0, "the fresh host buffer was dropped again");
}

#[test]
fn end_to_end_three_buffers_then_teardown_leaks_nothing() {
    let counters = Rc::new(HostCounters::default());
    let mut heap: NativeAllocatorHeap<TestAllocator> = NativeAllocatorHeap::new();
    let mut buffers: NativeBufferHeap<TestBuffer> = NativeBufferHeap::new();
    let provider = TestProvider { fail: false, counters: counters.clone() };
    let mut bridge = create_c_allocator_provider(provider, OK).expect("registration succeeds");

    // a fresh allocator for spec A: 256 x 256, 4-byte stride x 256
    let (s, h) = bridge.get_allocator(&mut heap, spec_a(), OK);
    assert_eq!(s, 0);
    let h = h.unwrap();
    assert_eq!(counters.provider_calls.get(), 1);

    let mut handles = Vec::new();
    let mut addrs = Vec::new();
    for _ in 0..3 {
        let (s, bh) = allocator_allocate(&heap, &mut buffers, h, OK);
        assert_eq!(s, 0);
        let bh = bh.unwrap();
        let (s, addr) = video_buffer_get_bytes(&buffers, bh);
        assert_eq!(s, 0);
        assert_ne!(addr, 0, "each buffer has a non-null address");
        handles.push(bh);
        addrs.push(addr);
    }
    assert_ne!(handles[0], handles[1]);
    assert_ne!(handles[1], handles[2]);
    assert_ne!(handles[0], handles[2]);
    assert_ne!(addrs[0], addrs[1]);
    assert_ne!(addrs[1], addrs[2]);
    assert_ne!(addrs[0], addrs[2]);
    assert_eq!(counters.buffers_alive.get(), 3);

    // release the three buffers, then the allocator, then the provider
    for bh in handles {
        video_buffer_release(&mut buffers, bh);
    }
    assert_eq!(counters.buffers_alive.get(), 0);
    heap.release(h);
    bridge.release(&mut heap);
    assert!(!heap.is_live(h));
    assert_eq!(counters.allocators_alive.get(), 0, "zero leaked host objects");
    assert_eq!(counters.buffers_alive.get(), 0);
}

#[test]
fn failed_provider_registration_reports_the_error() {
    let counters = Rc::new(HostCounters::default());
    let provider = TestProvider { fail: false, counters: counters.clone() };
    match create_c_allocator_provider(provider, -0x04) {
        Err(e) => assert_eq!(e, SdkError::NOINTERFACE),
        Ok(_) => panic!("registration must fail"),
    }
}

struct TouchyBuffer {
    counters: Rc<HostCounters>,
}

impl TouchyBuffer {
    fn new(counters: Rc<HostCounters>) -> TouchyBuffer {
        counters.buffers_alive.set(counters.buffers_alive.get() + 1);
        TouchyBuffer { counters }
    }
}

impl Drop for TouchyBuffer {
    fn drop(&mut self) {
        self.counters.buffers_alive.set(self.counters.buffers_alive.get() - 1);
    }
}

impl VideoBuffer for TouchyBuffer {
    fn bytes_result(&self) -> Result<u64, SdkError> {
        self.get_bytes()
    }

    fn start_access_result(&self, flags: u32) -> Result<(), SdkError> {
        self.start_access(flags)
    }

    fn end_access_result(&self, flags: u32) -> Result<(), SdkError> {
        self.end_access(flags)
    }

    fn get_bytes(&self) -> Result<u64, SdkError> {
        Ok(0x7000)
    }

    fn start_access(&self, flags: u32) -> Result<(), SdkError> {
        if flags == 0 {
            Err(SdkError::INVALIDARG)
        } else {
            Ok(())
        }
    }

    fn end_access(&self, _flags: u32) -> Result<(), SdkError> {
        Err(SdkError::ABORT)
    }
}

#[test]
fn access_hook_errors_are_forwarded_as_their_codes() {
    let counters = Rc::new(HostCounters::default());
    let mut buffers: NativeBufferHeap<TouchyBuffer> = NativeBufferHeap::new();
    let h = create_c_video_buffer(&mut buffers, TouchyBuffer::new(counters.clone()), OK).unwrap();
    assert_eq!(video_buffer_start_access(&buffers, h, 0), SdkError::INVALIDARG.code());
    assert_eq!(video_buffer_start_access(&buffers, h, 1), 0);
    assert_eq!(video_buffer_end_access(&buffers, h, 1), SdkError::ABORT.code());
}

#[test]
fn the_largest_describable_buffer_class_is_cached_like_any_other() {
    let counters = Rc::new(HostCounters::default());
    let mut heap: NativeAllocatorHeap<TestAllocator> = NativeAllocatorHeap::new();
    let provider = TestProvider { fail: false, counters: counters.clone() };
    let mut bridge = create_c_allocator_provider(provider, OK).expect("registration succeeds");
    let huge = BufferSpec {
        buffer_size: u32::MAX,
        width: u32::MAX,
        height: u32::MAX,
        row_bytes: u32::MAX,
        pixel_format: u32::MAX,
    };
    let (s, h1) = bridge.get_allocator(&mut heap, huge, OK);
    assert_eq!(s, 0);
    let (_, h2) = bridge.get_allocator(&mut heap, huge, OK);
    assert_eq!(h2, h1);
    assert_eq!(counters.provider_calls.get(), 1);
    assert_eq!(heap.buffer_spec_of(h1.unwrap()), huge);
    bridge.release(&mut heap);
}
