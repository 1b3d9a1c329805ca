//! Adapter between the native SDK's integer status-code convention and a
//! structured result type.
//!
//! The native side reports every outcome as an `i32`: `0` is success, `1` is a
//! benign "false" outcome (not an error), and a closed set of negative codes
//! are the real failures. Unrecognized codes decode to the benign `FALSE`
//! kind rather than being rejected, since the native side's full code space is
//! not enumerated.

use vstd::prelude::*;

verus! {

/// The closed set of non-success outcomes the native SDK can report.
///
/// `FALSE` is the benign boolean-false outcome; every other variant is a true
/// failure. Each variant stands for exactly one raw status code.
#[derive(Clone, Copy, Debug, PartialEq, Eq, Structural)]
#[allow(non_camel_case_types)]
pub enum SdkError {
    FALSE,
    UNEXPECTED,
    NOTIMPL,
    OUTOFMEMORY,
    INVALIDARG,
    NOINTERFACE,
    POINTER,
    HANDLE,
    ABORT,
    FAIL,
    ACCESSDENIED,
}

impl SdkError {
    /// The raw status code each error kind stands for.
    pub open spec fn spec_code(self) -> i32 {
        match self {
            SdkError::FALSE => 1i32,
            SdkError::UNEXPECTED => -0xFFFFi32,
            SdkError::NOTIMPL => -0x01i32,
            SdkError::OUTOFMEMORY => -0x02i32,
            SdkError::INVALIDARG => -0x03i32,
            SdkError::NOINTERFACE => -0x04i32,
            SdkError::POINTER => -0x05i32,
            SdkError::HANDLE => -0x06i32,
            SdkError::ABORT => -0x07i32,
            SdkError::FAIL => -0x08i32,
            SdkError::ACCESSDENIED => -0x09i32,
        }
    }

    /// Decoding of a raw status code: the matching error kind, or the benign
    /// `FALSE` outcome for every code outside the recognized set.
    pub open spec fn spec_from(value: i32) -> SdkError {
        if value == -0xFFFFi32 {
            SdkError::UNEXPECTED
        } else if value == -0x01i32 {
            SdkError::NOTIMPL
        } else if value == -0x02i32 {
            SdkError::OUTOFMEMORY
        } else if value == -0x03i32 {
            SdkError::INVALIDARG
        } else if value == -0x04i32 {
            SdkError::NOINTERFACE
        } else if value == -0x05i32 {
            SdkError::POINTER
        } else if value == -0x06i32 {
            SdkError::HANDLE
        } else if value == -0x07i32 {
            SdkError::ABORT
        } else if value == -0x08i32 {
            SdkError::FAIL
        } else if value == -0x09i32 {
            SdkError::ACCESSDENIED
        } else {
            SdkError::FALSE
        }
    }

    /// Success is exactly the reserved code `0`.
    pub open spec fn spec_is_ok(value: i32) -> bool {
        value == 0
    }

    /// The reserved benign-false code.
    pub open spec fn spec_is_false(value: i32) -> bool {
        value == 1
    }

    /// Return the raw status code for this error.
    pub fn code(&self) -> (r: i32)
        ensures
            r == self.spec_code(),
    {
        match self {
            SdkError::FALSE => 1i32,
            SdkError::UNEXPECTED => -0xFFFFi32,
            SdkError::NOTIMPL => -0x01i32,
            SdkError::OUTOFMEMORY => -0x02i32,
            SdkError::INVALIDARG => -0x03i32,
            SdkError::NOINTERFACE => -0x04i32,
            SdkError::POINTER => -0x05i32,
            SdkError::HANDLE => -0x06i32,
            SdkError::ABORT => -0x07i32,
            SdkError::FAIL => -0x08i32,
            SdkError::ACCESSDENIED => -0x09i32,
        }
    }

    /// Decode a raw status code into an error kind.
    pub fn from(value: i32) -> (r: SdkError)
        ensures
            r == Self::spec_from(value),
    {
        if value == -0xFFFFi32 {
            SdkError::UNEXPECTED
        } else if value == -0x01i32 {
            SdkError::NOTIMPL
        } else if value == -0x02i32 {
            SdkError::OUTOFMEMORY
        } else if value == -0x03i32 {
            SdkError::INVALIDARG
        } else if value == -0x04i32 {
            SdkError::NOINTERFACE
        } else if value == -0x05i32 {
            SdkError::POINTER
        } else if value == -0x06i32 {
            SdkError::HANDLE
        } else if value == -0x07i32 {
            SdkError::ABORT
        } else if value == -0x08i32 {
            SdkError::FAIL
        } else if value == -0x09i32 {
            SdkError::ACCESSDENIED
        } else {
            SdkError::FALSE
        }
    }

    /// Whether a raw status code is the benign-false outcome.
    pub fn is_false(value: i32) -> (r: bool)
        ensures
            r == Self::spec_is_false(value),
    {
        value == 1
    }

    /// Whether a raw status code is the success code.
    pub fn is_ok(value: i32) -> (r: bool)
        ensures
            r == Self::spec_is_ok(value),
    {
        value == 0
    }

    /// Map a raw status code to `Ok` with the type's default value on success,
    /// or to the decoded error otherwise.
    pub fn result<T: Default>(r: i32) -> (res: Result<T, SdkError>)
        ensures
            Self::spec_is_ok(r) <==> res is Ok,
            !Self::spec_is_ok(r) ==> res == Err::<T, SdkError>(Self::spec_from(r)),
    {
        if Self::is_ok(r) {
            Ok(T::default())
        } else {
            Err(Self::from(r))
        }
    }

    /// Map a raw status code to `Ok(def)` on success, or to the decoded error
    /// otherwise.
    pub fn result_or<T>(r: i32, def: T) -> (res: Result<T, SdkError>)
        ensures
            Self::spec_is_ok(r) ==> res == Ok::<T, SdkError>(def),
            !Self::spec_is_ok(r) ==> res == Err::<T, SdkError>(Self::spec_from(r)),
    {
        if Self::is_ok(r) {
            Ok(def)
        } else {
            Err(Self::from(r))
        }
    }

    /// Map a raw status code to `Ok` of the closure's result on success, or to
    /// the decoded error otherwise. The closure runs only on success.
    pub fn result_or_else<T, F: FnOnce() -> T>(r: i32, ok: F) -> (res: Result<T, SdkError>)
        requires
            Self::spec_is_ok(r) ==> call_requires(ok, ()),
        ensures
            Self::spec_is_ok(r) <==> res is Ok,
            !Self::spec_is_ok(r) ==> res == Err::<T, SdkError>(Self::spec_from(r)),
            res matches Ok(v) ==> call_ensures(ok, (), v),
    {
        if Self::is_ok(r) {
            Ok(ok())
        } else {
            Err(Self::from(r))
        }
    }
}

/// Encoding and decoding of status codes invert each other: every error kind
/// comes back out of the code it stands for. In particular the eleven raw
/// codes are pairwise distinct.
pub proof fn lemma_code_from_round_trip(e: SdkError)
    ensures
        SdkError::spec_from(e.spec_code()) == e,
{
}

/// Success, the benign-false outcome, and the failure codes are disjoint: the
/// success code is never decoded as an error kind's own code, and decoding
/// maps every unrecognized code (the success code among them) to `FALSE`.
pub proof fn lemma_ok_is_not_an_error_code(e: SdkError)
    ensures
        !SdkError::spec_is_ok(e.spec_code()),
        SdkError::spec_from(0) == SdkError::FALSE,
{
}

} // verus!
