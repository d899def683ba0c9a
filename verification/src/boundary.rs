//! The boundary contract: result codes, the last-error slot, and the
//! two-phase protocol for variable-length output buffers.
use vstd::prelude::*;
use vstd::slice::slice_to_vec;
use vstd::string::StringSliceAdditionalSpecFns;

verus! {

/// Result code of a boundary call. `Success` reports completion; `Blocked`
/// is a transient would-block condition, not a failure; `BufferTooSmall`
/// asks the caller to retry with a larger buffer; `DomainError` is a
/// protocol-level failure whose detail sits in the last-error slot.
#[derive(Clone, Copy, PartialEq, Eq, Structural, Debug)]
pub enum FFIResultKind {
    Success,
    Blocked,
    BufferTooSmall,
    DomainError,
}

/// Stable error-code space for domain errors.
pub const CODE_DOMAIN: u64 = 1;

/// Error code recorded when a transient would-block condition is reported.
pub const CODE_BLOCKED: u64 = 2;

/// Error code recorded when a caller-supplied buffer was too small.
pub const CODE_BUFFER_TOO_SMALL: u64 = 3;

/// Error code for a rejected `connect` without a default configuration.
pub const CODE_NO_DEFAULT_CONFIG: u64 = 4;

/// Error code for an out-of-range stream identifier.
pub const CODE_STREAM_ID_RANGE: u64 = 5;

/// Error code for a stream operation on the wrong side of a stream.
pub const CODE_STREAM_SIDE: u64 = 6;

/// Error code for an operation on a connection the endpoint does not know.
pub const CODE_UNKNOWN_CONNECTION: u64 = 7;

/// Error code for an accept call with no incoming stream queued.
pub const CODE_NO_STREAM: u64 = 8;

/// Error code for an open call in a direction whose identifiers ran out.
pub const CODE_STREAMS_EXHAUSTED: u64 = 9;

/// A machine-readable failure: a code from the stable error-code space and
/// the human-readable reason as bytes.
#[derive(Debug)]
pub struct QuinnError {
    pub code: u64,
    pub reason: Vec<u8>,
}

impl QuinnError {
    /// Builds an error from a code and a static reason text.
    pub fn new(code: u64, reason: &str) -> (r: QuinnError)
        ensures
            r.code == code,
            r.reason@ == reason.spec_bytes(),
    {
        QuinnError { code, reason: slice_to_vec(reason.as_bytes()) }
    }
}

/// The most recent failure of a fallible boundary call. Every failing call
/// overwrites it; a successful call clears it.
pub struct ErrorSlot {
    last: Option<QuinnError>,
}

/// What the slot will hold after a result of kind `kind` carrying `err` has
/// been recorded: success clears the slot, everything else overwrites it.
pub open spec fn recorded_slot(kind: FFIResultKind, err: Option<QuinnError>) -> Option<QuinnError> {
    match kind {
        FFIResultKind::Success => None,
        _ => err,
    }
}

impl ErrorSlot {
    /// Spec view: the error currently held, if any.
    pub closed spec fn view(&self) -> Option<QuinnError> {
        self.last
    }

    /// A fresh slot holds no error.
    pub fn new() -> (r: ErrorSlot)
        ensures
            r@ is None,
    {
        ErrorSlot { last: None }
    }

    /// Whether a failure is currently recorded.
    pub fn is_set(&self) -> (r: bool)
        ensures
            r == (self@ is Some),
    {
        self.last.is_some()
    }

    /// Records the outcome of a fallible boundary call: a success clears the
    /// slot, a failure overwrites it with the failure's record.
    pub fn record(&mut self, kind: FFIResultKind, err: Option<QuinnError>)
        ensures
            final(self)@ == recorded_slot(kind, err),
    {
        match kind {
            FFIResultKind::Success => {
                self.last = None;
            },
            _ => {
                self.last = err;
            },
        }
    }

    /// The two-phase error query. Always reports the required length through
    /// the second component of the result; copies the reason into the prefix
    /// of `buf` only when `buf` is large enough, and otherwise leaves `buf`
    /// untouched so the caller can resize and retry without side effects.
    pub fn last_error(&self, buf: &mut Vec<u8>) -> (r: (FFIResultKind, usize))
        ensures
            self@ is None ==> r == (FFIResultKind::Success, 0usize) && *final(buf) == *old(buf),
            self@ matches Some(e) ==> {
                &&& e.reason@.len() > old(buf)@.len() ==> r == (
                    FFIResultKind::BufferTooSmall,
                    e.reason@.len() as usize,
                ) && *final(buf) == *old(buf)
                &&& e.reason@.len() <= old(buf)@.len() ==> r == (
                    FFIResultKind::Success,
                    e.reason@.len() as usize,
                ) && final(buf)@ == e.reason@ + old(buf)@.skip(e.reason@.len() as int)
            },
    {
        match &self.last {
            None => (FFIResultKind::Success, 0),
            Some(e) => {
                let needed = e.reason.len();
                if needed > buf.len() {
                    (FFIResultKind::BufferTooSmall, needed)
                } else {
                    copy_prefix(buf, &e.reason);
                    (FFIResultKind::Success, needed)
                }
            },
        }
    }
}

/// Overwrites the prefix of `dst` with all of `src`, leaving the rest of
/// `dst` as it was. This is the write half of the two-phase buffer protocol;
/// callers check the lengths first.
pub fn copy_prefix(dst: &mut Vec<u8>, src: &Vec<u8>)
    requires
        src@.len() <= old(dst)@.len(),
    ensures
        final(dst)@ == src@ + old(dst)@.skip(src@.len() as int),
{
    let n = src.len();
    let mut i: usize = 0;
    while i < n
        invariant
            n == src@.len(),
            n <= dst@.len(),
            i <= n,
            dst@.len() == old(dst)@.len(),
            forall|j: int| 0 <= j < i ==> dst@[j] == src@[j],
            forall|j: int| i <= j < dst@.len() ==> dst@[j] == old(dst)@[j],
        decreases n - i,
    {
        let b = src[i];
        dst[i] = b;
        i = i + 1;
    }
    assert(dst@ =~= src@ + old(dst)@.skip(src@.len() as int));
}

} // verus!
