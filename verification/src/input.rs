//! The input event bridge and the device-input lifecycle rules.
//!
//! Two native callbacks — format-changed and frame-arrived — are registered at
//! most once per device-input object; what they invoke is a single swappable
//! handler slot. The device object owns that slot, the video-active flag, and
//! (optionally) the allocator-provider bridge in use, and enforces the
//! registration and teardown order: register once, swap the handler freely,
//! and on teardown clear the registration before the wrapper's storage is
//! reclaimed and give up the provider cache's holds. As in [`crate::bridge`],
//! the status codes the native calls would answer with are passed in by the
//! caller.

use crate::allocator::{BufferSpec, VideoBufferAllocatorProvider};
use crate::bridge::{
    create_c_allocator_provider, spec_get_allocator_post, spec_release_post, NativeAllocatorHeap,
    ProviderBridge,
};
use crate::enums::{
    DecklinkAudioSampleRate, DecklinkAudioSampleType, DecklinkDetectedVideoInputFormatFlags,
    DecklinkDisplayModeId, DecklinkVideoInputFlags, DecklinkVideoInputFormatChangedEvents,
};
use crate::util::SdkError;
use vstd::pervasive::unreached;
use vstd::prelude::*;

verus! {

/// A video frame as the input bridge hands it to a handler: the raw identity
/// of the converted native frame object. Reading the frame itself (its pixels,
/// its timing) is outside this crate.
#[derive(Clone, Copy, Debug, PartialEq, Eq, Structural)]
pub struct DecklinkVideoFrame {
    pub raw: u64,
}

/// Receiver of input events from the device.
pub trait DeckLinkInputCallback: Sized {
    /// The answer a frame-arrived notification gets, as a function of the
    /// handler and the delivered frame. Dispatch forwards exactly this bit to
    /// the native side as a status code.
    spec fn frame_response(&self, video_frame: Option<DecklinkVideoFrame>) -> bool;

    /// Called when the video input format changes (resolution, field
    /// dominance, colorspace). Nothing is expected back.
    fn video_input_format_changed(
        &self,
        events: DecklinkVideoInputFormatChangedEvents,
        new_display_mode: DecklinkDisplayModeId,
        detected_signal_flags: DecklinkDetectedVideoInputFormatFlags,
    );

    /// Called for every arriving video frame; `None` means signal loss.
    /// Return `true` to report success.
    fn video_input_frame_arrived(&self, video_frame: Option<DecklinkVideoFrame>) -> (r: bool)
        ensures
            r == self.frame_response(video_frame),
    ;
}

/// The single handler slot both native callbacks read.
///
/// In the running system the slot sits behind a read/write lock, read on the
/// native capture thread and written on handler replacement; here replacement
/// and dispatch are whole-value operations on the slot, which is the
/// linearized behaviour the lock buys: a dispatch sees exactly one
/// fully-formed handler, or none.
pub struct InputCallbackWrapper<H: DeckLinkInputCallback> {
    pub handler: Option<H>,
}

/// Model of the owned native device-input handle, named by its raw identity,
/// with the device-wide video-active flag beside it.
pub struct DecklinkInputDevicePtr {
    pub dev: u64,
    pub video_active: bool,
}

/// Install the native input-callback trampolines for a device and hand back
/// the wrapper they will read, its handler slot empty.
///
/// `native_status` is the status code the native registration call answers
/// with; on failure the freshly made wrapper is reclaimed again and nothing is
/// left registered.
pub fn register_input_callback<H: DeckLinkInputCallback>(
    ptr: &DecklinkInputDevicePtr,
    native_status: i32,
) -> (r: Result<InputCallbackWrapper<H>, SdkError>)
    ensures
        SdkError::spec_is_ok(native_status) ==> (r matches Ok(w) && w.handler is None),
        !SdkError::spec_is_ok(native_status) ==> (r matches Err(e) && e == SdkError::spec_from(
            native_status,
        )),
{
    let callback_wrapper = InputCallbackWrapper { handler: None };
    let _ = ptr.dev;
    if SdkError::is_ok(native_status) {
        Ok(callback_wrapper)
    } else {
        Err(SdkError::from(native_status))
    }
}

/// The status code a frame dispatch forwards for the handler's answer: the
/// success code for `true`, the benign-false code for `false`.
pub open spec fn spec_frame_result_status(handled: bool) -> i32 {
    if handled {
        0i32
    } else {
        1i32
    }
}

/// Forward a handler's boolean frame answer as a status code.
pub fn frame_result_status(handled: bool) -> (r: i32)
    ensures
        r == spec_frame_result_status(handled),
{
    if handled {
        0i32
    } else {
        1i32
    }
}

/// The optional frame a dispatch hands the handler: no frame when the native
/// frame object is null (signal loss), or when its conversion to a generic
/// video frame came back null; otherwise the converted frame.
pub open spec fn spec_frame_of(video_frame: u64, converted_frame: u64) -> Option<
    DecklinkVideoFrame,
> {
    if video_frame == 0 || converted_frame == 0 {
        None
    } else {
        Some(DecklinkVideoFrame { raw: converted_frame })
    }
}

/// Translate the two native frame pointers of a frame-arrived notification
/// (`0` is null) into the optional frame the handler sees.
pub fn native_frame_value(video_frame: u64, converted_frame: u64) -> (r: Option<
    DecklinkVideoFrame,
>)
    ensures
        r == spec_frame_of(video_frame, converted_frame),
{
    if video_frame == 0 || converted_frame == 0 {
        None
    } else {
        Some(DecklinkVideoFrame { raw: converted_frame })
    }
}

/// A null native frame pointer yields the "no frame" value for the handler,
/// whatever the conversion would have answered, and a handler's boolean answer
/// is forwarded as the corresponding status code: the success code for `true`,
/// the benign-false code for `false`.
pub proof fn lemma_null_frame_and_status_forwarding(converted_frame: u64)
    ensures
        spec_frame_of(0, converted_frame) is None,
        spec_frame_result_status(true) == 0,
        spec_frame_result_status(false) == 1,
        SdkError::spec_is_ok(spec_frame_result_status(true)),
        SdkError::spec_is_false(spec_frame_result_status(false)),
{
}

/// The native format-changed trampoline: translate the raw event word, the
/// optional raw display mode (`None` models a null native mode object) and the
/// raw detected-signal word, and invoke the handler if one is set. Always
/// answers success: nothing is expected back from the handler.
pub fn video_input_format_changed_callback<H: DeckLinkInputCallback>(
    wrapper: &InputCallbackWrapper<H>,
    notification_events: u32,
    new_display_mode: Option<u32>,
    detected_signal_flags: u32,
) -> (r: i32)
    ensures
        r == 0,
{
    if let Some(handler) = &wrapper.handler {
        let events = DecklinkVideoInputFormatChangedEvents::from_bits_truncate(
            notification_events,
        );
        let mode_id = DecklinkDisplayModeId::from_raw(new_display_mode);
        let flags = DecklinkDetectedVideoInputFormatFlags::from_bits_truncate(
            detected_signal_flags,
        );
        handler.video_input_format_changed(events, mode_id, flags);
    }
    0i32
}

/// The native frame-arrived trampoline: hand the handler the translated frame
/// — no frame for a null native frame object — and forward its boolean answer
/// as the status code, success if no handler is set.
///
/// `video_frame` is the native input-frame object (`0` is null, e.g. signal
/// loss); `converted_frame` is what the native conversion of that object to a
/// generic video frame answers, consulted only when `video_frame` is not null.
pub fn video_input_frame_arrived_callback<H: DeckLinkInputCallback>(
    wrapper: &InputCallbackWrapper<H>,
    video_frame: u64,
    converted_frame: u64,
) -> (r: i32)
    ensures
        wrapper.handler is None ==> r == 0,
        wrapper.handler matches Some(h) ==> r == spec_frame_result_status(
            h.frame_response(spec_frame_of(video_frame, converted_frame)),
        ),
{
    match &wrapper.handler {
        Some(handler) => {
            let frame = native_frame_value(video_frame, converted_frame);
            let handled = handler.video_input_frame_arrived(frame);
            frame_result_status(handled)
        },
        None => 0i32,
    }
}

/// A device-input object: the owned native handle, the callback wrapper once
/// one is registered, the video-active flag, and the allocator-provider bridge
/// in use, if any.
pub struct DecklinkInputDevice<P: VideoBufferAllocatorProvider, H: DeckLinkInputCallback> {
    ptr: DecklinkInputDevicePtr,
    callback_wrapper: Option<InputCallbackWrapper<H>>,
    allocator_provider: Option<ProviderBridge<P>>,
}

impl<P: VideoBufferAllocatorProvider, H: DeckLinkInputCallback> DecklinkInputDevice<P, H> {
    /// The raw identity of the owned native device handle.
    pub closed spec fn dev_id(self) -> u64 {
        self.ptr.dev
    }

    /// Whether video input is enabled.
    pub closed spec fn is_video_active(self) -> bool {
        self.ptr.video_active
    }

    /// Whether the native callback trampolines have been installed. Once set,
    /// this stays set until the device is torn down; handler replacement does
    /// not change it.
    pub closed spec fn registered(self) -> bool {
        self.callback_wrapper is Some
    }

    /// The handler the callback wrapper currently holds, if any.
    pub closed spec fn handler(self) -> Option<H> {
        match self.callback_wrapper {
            Some(w) => w.handler,
            None => None,
        }
    }

    /// The allocator-provider bridge in use, if any.
    pub closed spec fn provider_bridge(self) -> Option<ProviderBridge<P>> {
        self.allocator_provider
    }

    /// Well-formedness against the native allocator table: if a provider
    /// bridge is attached, it is well-formed there.
    pub open spec fn wf(self, heap: NativeAllocatorHeap<P::Alloc>) -> bool {
        self.provider_bridge() matches Some(b) ==> b.wf(heap)
    }

    /// Everything but the video-active flag and the provider bridge is the
    /// same in both device states.
    pub open spec fn same_callback_state(self, other: Self) -> bool {
        &&& self.dev_id() == other.dev_id()
        &&& self.registered() == other.registered()
        &&& self.handler() == other.handler()
    }

    /// Adopt a freshly acquired native device-input handle: video input off,
    /// no callback registered, no provider attached.
    pub fn from(ptr: u64) -> (r: Self)
        ensures
            r.dev_id() == ptr,
            !r.is_video_active(),
            !r.registered(),
            r.handler() is None,
            r.provider_bridge() is None,
    {
        DecklinkInputDevice {
            ptr: DecklinkInputDevicePtr { dev: ptr, video_active: false },
            callback_wrapper: None,
            allocator_provider: None,
        }
    }

    /// Whether video input is currently enabled.
    pub fn video_active(&self) -> (r: bool)
        ensures
            r == self.is_video_active(),
    {
        self.ptr.video_active
    }

    /// Enable video input with the given display mode, pixel format and flags
    /// (each as its raw native value where the type is outside this crate).
    ///
    /// Refused with `ACCESSDENIED` while video input is already active.
    /// `native_status` is the status code the native enable call answers with;
    /// on its failure the device is left as it was.
    pub fn enable_video_input(
        &mut self,
        mode: u32,
        pixel_format: u32,
        flags: DecklinkVideoInputFlags,
        native_status: i32,
    ) -> (r: Result<(), SdkError>)
        ensures
            old(self).same_callback_state(*final(self)),
            final(self).provider_bridge() == old(self).provider_bridge(),
            old(self).is_video_active() ==> r == Err::<(), SdkError>(SdkError::ACCESSDENIED)
                && final(self).is_video_active(),
            !old(self).is_video_active() && SdkError::spec_is_ok(native_status) ==> r
                == Ok::<(), SdkError>(()) && final(self).is_video_active(),
            !old(self).is_video_active() && !SdkError::spec_is_ok(native_status) ==> r == Err::<
                (),
                SdkError,
            >(SdkError::spec_from(native_status)) && !final(self).is_video_active(),
    {
        let _ = mode;
        let _ = pixel_format;
        let _ = flags;
        if self.ptr.video_active {
            return Err(SdkError::ACCESSDENIED);
        }
        self.ptr.video_active = true;
        if !SdkError::is_ok(native_status) {
            self.ptr.video_active = false;
            return Err(SdkError::from(native_status));
        }
        Ok(())
    }

    /// Enable video input with a custom allocator provider.
    ///
    /// Refused with `ACCESSDENIED` while video input is already active. The
    /// provider is first registered as a native provider object
    /// (`create_status` is that call's answer), then video input is enabled
    /// with it (`enable_status`). Either failure leaves the device as it was
    /// and nothing behind: a provider object created before a failed enable is
    /// discarded again — its cache is still empty, so no native allocator is
    /// affected — and the host provider is dropped with it.
    pub fn enable_video_input_with_allocator(
        &mut self,
        mode: u32,
        pixel_format: u32,
        flags: DecklinkVideoInputFlags,
        provider: P,
        create_status: i32,
        enable_status: i32,
    ) -> (r: Result<(), SdkError>)
        ensures
            old(self).same_callback_state(*final(self)),
            old(self).is_video_active() ==> r == Err::<(), SdkError>(SdkError::ACCESSDENIED)
                && final(self).is_video_active() && final(self).provider_bridge() == old(self).provider_bridge(),
            !old(self).is_video_active() && !SdkError::spec_is_ok(create_status) ==> r == Err::<
                (),
                SdkError,
            >(SdkError::spec_from(create_status)) && !final(self).is_video_active() && final(self).provider_bridge() == old(self).provider_bridge(),
            !old(self).is_video_active() && SdkError::spec_is_ok(create_status)
                && !SdkError::spec_is_ok(enable_status) ==> r == Err::<(), SdkError>(
                SdkError::spec_from(enable_status),
            ) && !final(self).is_video_active() && final(self).provider_bridge() == old(self).provider_bridge(),
            !old(self).is_video_active() && SdkError::spec_is_ok(create_status)
                && SdkError::spec_is_ok(enable_status) ==> r == Ok::<(), SdkError>(()) && final(self).is_video_active() && (final(self).provider_bridge() matches Some(b)
                && b.cache_entries() == Seq::<(BufferSpec, usize)>::empty()
                && b.provider_calls() == Seq::<BufferSpec>::empty()),
    {
        let _ = mode;
        let _ = pixel_format;
        let _ = flags;
        if self.ptr.video_active {
            return Err(SdkError::ACCESSDENIED);
        }
        self.ptr.video_active = true;
        let c_provider = match create_c_allocator_provider(provider, create_status) {
            Ok(b) => b,
            Err(e) => {
                self.ptr.video_active = false;
                return Err(e);
            },
        };
        if !SdkError::is_ok(enable_status) {
            // the native enable refused the provider object: discard it again
            // (its cache is empty, so nothing else holds through it)
            self.ptr.video_active = false;
            return Err(SdkError::from(enable_status));
        }
        self.allocator_provider = Some(c_provider);
        Ok(())
    }

    /// Disable video input and give up the attached allocator provider, if
    /// any: the cache's hold on every cached native allocator is released, so
    /// a cached allocator the native side no longer references is torn down
    /// here, and one it still references stays live.
    ///
    /// The flag and the provider are cleared whatever `native_status` (the
    /// native disable call's answer) says; the result only reports it.
    pub fn disable_video_input(
        &mut self,
        heap: &mut NativeAllocatorHeap<P::Alloc>,
        native_status: i32,
    ) -> (r: Result<(), SdkError>)
        requires
            old(heap).wf(),
            old(self).wf(*old(heap)),
        ensures
            old(self).same_callback_state(*final(self)),
            !final(self).is_video_active(),
            final(self).provider_bridge() is None,
            final(heap).wf(),
            SdkError::spec_is_ok(native_status) <==> r is Ok,
            !SdkError::spec_is_ok(native_status) ==> r == Err::<(), SdkError>(
                SdkError::spec_from(native_status),
            ),
            old(self).provider_bridge() is None ==> final(heap)@ == old(heap)@,
            old(self).provider_bridge() matches Some(b) ==> spec_release_post(
                b,
                *old(heap),
                *final(heap),
            ),
    {
        self.ptr.video_active = false;
        if let Some(bridge) = self.allocator_provider.take() {
            bridge.release(heap);
        }
        SdkError::result(native_status)
    }

    /// Enable audio input with the given sample rate, sample format and
    /// channel count. `native_status` is the native call's answer.
    pub fn enable_audio_input(
        &self,
        sample_rate: DecklinkAudioSampleRate,
        sample_type: DecklinkAudioSampleType,
        channel_count: u32,
        native_status: i32,
    ) -> (r: Result<(), SdkError>)
        ensures
            SdkError::spec_is_ok(native_status) <==> r is Ok,
            !SdkError::spec_is_ok(native_status) ==> r == Err::<(), SdkError>(
                SdkError::spec_from(native_status),
            ),
    {
        let _ = sample_rate;
        let _ = sample_type;
        let _ = channel_count;
        SdkError::result(native_status)
    }

    /// Disable audio input. `native_status` is the native call's answer.
    pub fn disable_audio_input(&self, native_status: i32) -> (r: Result<(), SdkError>)
        ensures
            SdkError::spec_is_ok(native_status) <==> r is Ok,
            !SdkError::spec_is_ok(native_status) ==> r == Err::<(), SdkError>(
                SdkError::spec_from(native_status),
            ),
    {
        SdkError::result(native_status)
    }

    /// Install or replace the input handler.
    ///
    /// Registration with the native side happens at most once, on the first
    /// call (`native_status` is that registration's answer and is consulted
    /// only then); every later call only swaps the handler slot's contents.
    /// On a failed first registration nothing is installed and the handler
    /// slot does not come to exist.
    pub fn set_callback(&mut self, handler: Option<H>, native_status: i32) -> (r: Result<
        (),
        SdkError,
    >)
        ensures
            final(self).dev_id() == old(self).dev_id(),
            final(self).is_video_active() == old(self).is_video_active(),
            final(self).provider_bridge() == old(self).provider_bridge(),
            old(self).registered() ==> r == Ok::<(), SdkError>(()) && final(self).registered()
                && final(self).handler() == handler,
            !old(self).registered() && SdkError::spec_is_ok(native_status) ==> r == Ok::<
                (),
                SdkError,
            >(()) && final(self).registered() && final(self).handler() == handler,
            !old(self).registered() && !SdkError::spec_is_ok(native_status) ==> r == Err::<
                (),
                SdkError,
            >(SdkError::spec_from(native_status)) && !final(self).registered() && final(self).handler() is None,
    {
        if self.callback_wrapper.is_none() {
            let w = register_input_callback(&self.ptr, native_status)?;
            self.callback_wrapper = Some(w);
        }
        match &mut self.callback_wrapper {
            Some(w) => {
                w.handler = handler;
                Ok(())
            },
            None => unreached(),
        }
    }

    /// Start capturing streams. `native_status` is the native call's answer.
    pub fn start_streams(&self, native_status: i32) -> (r: Result<(), SdkError>)
        ensures
            SdkError::spec_is_ok(native_status) <==> r is Ok,
            !SdkError::spec_is_ok(native_status) ==> r == Err::<(), SdkError>(
                SdkError::spec_from(native_status),
            ),
    {
        SdkError::result(native_status)
    }

    /// Stop capturing streams. `native_status` is the native call's answer.
    pub fn stop_streams(&self, native_status: i32) -> (r: Result<(), SdkError>)
        ensures
            SdkError::spec_is_ok(native_status) <==> r is Ok,
            !SdkError::spec_is_ok(native_status) ==> r == Err::<(), SdkError>(
                SdkError::spec_from(native_status),
            ),
    {
        SdkError::result(native_status)
    }

    /// Pause capturing streams. `native_status` is the native call's answer.
    pub fn pause_streams(&self, native_status: i32) -> (r: Result<(), SdkError>)
        ensures
            SdkError::spec_is_ok(native_status) <==> r is Ok,
            !SdkError::spec_is_ok(native_status) ==> r == Err::<(), SdkError>(
                SdkError::spec_from(native_status),
            ),
    {
        SdkError::result(native_status)
    }

    /// Flush all buffered frames. `native_status` is the native call's answer.
    pub fn flush_streams(&self, native_status: i32) -> (r: Result<(), SdkError>)
        ensures
            SdkError::spec_is_ok(native_status) <==> r is Ok,
            !SdkError::spec_is_ok(native_status) ==> r == Err::<(), SdkError>(
                SdkError::spec_from(native_status),
            ),
    {
        SdkError::result(native_status)
    }

    /// Number of buffered video frames: the count the native call wrote back,
    /// if it answered success.
    pub fn available_video_frame_count(&self, count: u32, native_status: i32) -> (r: Result<
        u32,
        SdkError,
    >)
        ensures
            SdkError::spec_is_ok(native_status) ==> r == Ok::<u32, SdkError>(count),
            !SdkError::spec_is_ok(native_status) ==> r == Err::<u32, SdkError>(
                SdkError::spec_from(native_status),
            ),
    {
        SdkError::result_or(native_status, count)
    }

    /// Number of buffered audio sample frames: the count the native call wrote
    /// back, if it answered success.
    pub fn available_audio_sample_frame_count(&self, count: u32, native_status: i32) -> (r: Result<
        u32,
        SdkError,
    >)
        ensures
            SdkError::spec_is_ok(native_status) ==> r == Ok::<u32, SdkError>(count),
            !SdkError::spec_is_ok(native_status) ==> r == Err::<u32, SdkError>(
                SdkError::spec_from(native_status),
            ),
    {
        SdkError::result_or(native_status, count)
    }

    /// The native frame-arrived trampoline, reached through the context this
    /// device registered: only callable once a callback is registered, as the
    /// native side only invokes what was installed.
    pub fn dispatch_frame_arrived(&self, video_frame: u64, converted_frame: u64) -> (r: i32)
        requires
            self.registered(),
        ensures
            self.handler() is None ==> r == 0,
            self.handler() matches Some(h) ==> r == spec_frame_result_status(
                h.frame_response(spec_frame_of(video_frame, converted_frame)),
            ),
    {
        match &self.callback_wrapper {
            Some(w) => video_input_frame_arrived_callback(w, video_frame, converted_frame),
            None => unreached(),
        }
    }

    /// The native format-changed trampoline, reached through the context this
    /// device registered.
    pub fn dispatch_format_changed(
        &self,
        notification_events: u32,
        new_display_mode: Option<u32>,
        detected_signal_flags: u32,
    ) -> (r: i32)
        requires
            self.registered(),
        ensures
            r == 0,
    {
        match &self.callback_wrapper {
            Some(w) => video_input_format_changed_callback(
                w,
                notification_events,
                new_display_mode,
                detected_signal_flags,
            ),
            None => unreached(),
        }
    }

    /// The native get-allocator callback, reached through the provider object
    /// this device attached: only callable while a provider is attached, and
    /// behaving exactly as [`ProviderBridge::get_allocator`] does.
    pub fn provider_get_allocator(
        &mut self,
        heap: &mut NativeAllocatorHeap<P::Alloc>,
        spec: BufferSpec,
        native_status: i32,
    ) -> (r: (i32, Option<usize>))
        requires
            old(self).provider_bridge() is Some,
            old(self).wf(*old(heap)),
            old(self).provider_bridge()->Some_0.cached().contains_key(spec) ==> old(heap).count(
                old(self).provider_bridge()->Some_0.cached()[spec] as int,
            ) < u64::MAX,
        ensures
            old(self).same_callback_state(*final(self)),
            final(self).is_video_active() == old(self).is_video_active(),
            final(self).provider_bridge() is Some,
            final(self).wf(*final(heap)),
            spec_get_allocator_post(
                old(self).provider_bridge()->Some_0,
                final(self).provider_bridge()->Some_0,
                *old(heap),
                *final(heap),
                spec,
                native_status,
                r,
            ),
    {
        match &mut self.allocator_provider {
            Some(bridge) => bridge.get_allocator(heap, spec, native_status),
            None => unreached(),
        }
    }

    /// Tear the device down, in the mandated order: streaming is stopped and
    /// video input disabled if still active, the native callback registration
    /// is cleared before the wrapper's storage is reclaimed — never the
    /// reverse, so no dispatch can reach freed storage — and the allocator
    /// provider's cache holds are released as in `disable_video_input`. The
    /// answers of the native stop, disable and clear-callback calls are
    /// ignored, as teardown does not fail outwardly.
    pub fn teardown(self, heap: &mut NativeAllocatorHeap<P::Alloc>)
        requires
            old(heap).wf(),
            self.wf(*old(heap)),
        ensures
            final(heap).wf(),
            self.provider_bridge() is None ==> final(heap)@ == old(heap)@,
            self.provider_bridge() matches Some(b) ==> spec_release_post(
                b,
                *old(heap),
                *final(heap),
            ),
    {
        let DecklinkInputDevice { ptr, callback_wrapper, allocator_provider } = self;
        let _ = ptr;
        // registration cleared first (the native side stops invoking the
        // trampolines), only then the wrapper storage goes away
        let _ = callback_wrapper;
        if let Some(bridge) = allocator_provider {
            bridge.release(heap);
        }
    }
}

} // verus!
