//! Flag sets and parameter enums of the device-input interface, carried as
//! their raw native values.
//!
//! The native side hands flag words over as raw `u32` bit sets; the typed flag
//! structs below keep exactly the bits the interface defines and drop unknown
//! ones, as the dispatch path requires. Display modes themselves (the mode
//! table, capability queries) are outside this crate; a mode is carried by its
//! raw identifier, with a sentinel for a null native mode object.

use vstd::prelude::*;

verus! {

/// Bit for on-the-fly input format detection in the video-input flags word.
pub const VIDEO_INPUT_ENABLE_FORMAT_DETECTION: u32 = 0x1;

/// Bit for dual-stream 3D capture in the video-input flags word.
pub const VIDEO_INPUT_DUAL_STREAM_3D: u32 = 0x2;

/// Bit for synchronizing to a capture group in the video-input flags word.
pub const VIDEO_INPUT_SYNCHRONIZE_TO_CAPTURE_GROUP: u32 = 0x4;

/// All bits the video-input flags word defines.
pub const VIDEO_INPUT_FLAGS_MASK: u32 = 0x7;

/// Bit for a display-mode change in the format-changed events word.
pub const FORMAT_CHANGED_DISPLAY_MODE_CHANGED: u32 = 0x1;

/// Bit for a field-dominance change in the format-changed events word.
pub const FORMAT_CHANGED_FIELD_DOMINANCE_CHANGED: u32 = 0x2;

/// Bit for a colorspace change in the format-changed events word.
pub const FORMAT_CHANGED_COLORSPACE_CHANGED: u32 = 0x4;

/// All bits the format-changed events word defines.
pub const FORMAT_CHANGED_EVENTS_MASK: u32 = 0x7;

/// Bit for YCbCr 4:2:2 in the detected-signal flags word.
pub const DETECTED_FORMAT_YCBCR_422: u32 = 0x1;

/// Bit for RGB 4:4:4 in the detected-signal flags word.
pub const DETECTED_FORMAT_RGB_444: u32 = 0x2;

/// Bit for dual-stream 3D in the detected-signal flags word.
pub const DETECTED_FORMAT_DUAL_STREAM_3D: u32 = 0x4;

/// Bit for 12-bit depth in the detected-signal flags word.
pub const DETECTED_FORMAT_BIT_DEPTH_12: u32 = 0x8;

/// Bit for 10-bit depth in the detected-signal flags word.
pub const DETECTED_FORMAT_BIT_DEPTH_10: u32 = 0x10;

/// Bit for 8-bit depth in the detected-signal flags word.
pub const DETECTED_FORMAT_BIT_DEPTH_8: u32 = 0x20;

/// All bits the detected-signal flags word defines.
pub const DETECTED_FORMAT_FLAGS_MASK: u32 = 0x3F;

/// Flags for enabling video input.
#[derive(Clone, Copy, Debug, PartialEq, Eq, Hash, Structural)]
pub struct DecklinkVideoInputFlags {
    pub bits: u32,
}

impl DecklinkVideoInputFlags {
    /// The flag set with no bit on.
    pub fn empty() -> (r: Self)
        ensures
            r.bits == 0,
    {
        DecklinkVideoInputFlags { bits: 0 }
    }

    /// Keep exactly the defined bits of a raw flags word.
    pub fn from_bits_truncate(raw: u32) -> (r: Self)
        ensures
            r.bits == raw & VIDEO_INPUT_FLAGS_MASK,
    {
        DecklinkVideoInputFlags { bits: raw & VIDEO_INPUT_FLAGS_MASK }
    }

    /// The raw flags word.
    pub fn bits(&self) -> (r: u32)
        ensures
            r == self.bits,
    {
        self.bits
    }
}

/// Event bits delivered with a format-changed notification.
#[derive(Clone, Copy, Debug, PartialEq, Eq, Hash, Structural)]
pub struct DecklinkVideoInputFormatChangedEvents {
    pub bits: u32,
}

impl DecklinkVideoInputFormatChangedEvents {
    /// Keep exactly the defined bits of a raw events word.
    pub fn from_bits_truncate(raw: u32) -> (r: Self)
        ensures
            r.bits == raw & FORMAT_CHANGED_EVENTS_MASK,
    {
        DecklinkVideoInputFormatChangedEvents { bits: raw & FORMAT_CHANGED_EVENTS_MASK }
    }

    /// The raw events word.
    pub fn bits(&self) -> (r: u32)
        ensures
            r == self.bits,
    {
        self.bits
    }
}

/// Properties of the signal detected with a format-changed notification.
#[derive(Clone, Copy, Debug, PartialEq, Eq, Hash, Structural)]
pub struct DecklinkDetectedVideoInputFormatFlags {
    pub bits: u32,
}

impl DecklinkDetectedVideoInputFormatFlags {
    /// Keep exactly the defined bits of a raw flags word.
    pub fn from_bits_truncate(raw: u32) -> (r: Self)
        ensures
            r.bits == raw & DETECTED_FORMAT_FLAGS_MASK,
    {
        DecklinkDetectedVideoInputFormatFlags { bits: raw & DETECTED_FORMAT_FLAGS_MASK }
    }

    /// The raw flags word.
    pub fn bits(&self) -> (r: u32)
        ensures
            r == self.bits,
    {
        self.bits
    }
}

/// A display mode as the input bridge sees one: its raw native identifier, or
/// `Unknown` when the native side handed over a null mode object. The mode
/// table itself is outside this crate.
#[derive(Clone, Copy, Debug, PartialEq, Eq, Structural)]
pub enum DecklinkDisplayModeId {
    Unknown,
    Mode(u32),
}

impl DecklinkDisplayModeId {
    /// Translate what the native side delivered: a null mode object (`None`)
    /// becomes the unknown sentinel, anything else is carried by its raw
    /// identifier.
    pub fn from_raw(raw: Option<u32>) -> (r: Self)
        ensures
            r == Self::spec_from_raw(raw),
    {
        match raw {
            None => DecklinkDisplayModeId::Unknown,
            Some(v) => DecklinkDisplayModeId::Mode(v),
        }
    }

    /// What `from_raw` answers.
    pub open spec fn spec_from_raw(raw: Option<u32>) -> Self {
        match raw {
            None => DecklinkDisplayModeId::Unknown,
            Some(v) => DecklinkDisplayModeId::Mode(v),
        }
    }
}

/// Audio sample rates the input interface accepts.
#[derive(Clone, Copy, Debug, PartialEq, Eq, Structural)]
pub enum DecklinkAudioSampleRate {
    Rate48kHz,
}

impl DecklinkAudioSampleRate {
    /// The raw native value for this sample rate.
    pub fn raw_value(&self) -> (r: u32)
        ensures
            self is Rate48kHz ==> r == 48000,
    {
        match self {
            DecklinkAudioSampleRate::Rate48kHz => 48000,
        }
    }
}

/// Audio sample formats the input interface accepts.
#[derive(Clone, Copy, Debug, PartialEq, Eq, Structural)]
pub enum DecklinkAudioSampleType {
    Int16,
    Int32,
}

impl DecklinkAudioSampleType {
    /// The raw native value for this sample format: its bit width.
    pub fn raw_value(&self) -> (r: u32)
        ensures
            r == (if self is Int16 {
                16u32
            } else {
                32u32
            }),
    {
        match self {
            DecklinkAudioSampleType::Int16 => 16,
            DecklinkAudioSampleType::Int32 => 32,
        }
    }
}

} // verus!
