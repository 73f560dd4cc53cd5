//! The four length-validation policies.
//!
//! A policy decides, from a buffer's byte length and a target element size
//! alone, how many whole elements the buffer yields and whether leftover
//! bytes are acceptable.  No policy ever reads the buffer's contents.

use vstd::prelude::*;
use crate::error::{Error, ErrorReason};

verus! {

/// A length-validation policy, selected at the call site.
#[derive(Clone, Copy, Debug, PartialEq, Eq, Structural)]
pub enum GuardPolicy {
    /// Accepts any length; trailing bytes past the last whole element are
    /// silently discarded, and zero whole elements is a valid outcome.
    Permissive,
    /// Accepts exactly one element's worth of bytes, no more, no less.
    SingleValue,
    /// Accepts at least one element's worth of bytes; trailing bytes past
    /// the last whole element are tolerated.
    SingleMany,
    /// Accepts exactly a whole number of elements, zero included; refuses
    /// both a short buffer and trailing bytes.
    Pedantic,
}

/// Whether the policy accepts a buffer of `len` bytes against elements of
/// `size` bytes.
pub open spec fn guard_allows(policy: GuardPolicy, len: int, size: int) -> bool {
    match policy {
        GuardPolicy::Permissive => true,
        GuardPolicy::SingleValue => len == size,
        GuardPolicy::SingleMany => len >= size,
        GuardPolicy::Pedantic => len % size == 0,
    }
}

/// The element count a policy reports on success: the number of whole
/// elements of `size` bytes that fit in `len` bytes.
pub open spec fn guard_count(len: int, size: int) -> int {
    len / size
}

/// The whole-element count never exceeds the byte length itself, so it
/// always fits in the type the byte length came in.
pub proof fn lemma_count_fits(len: int, size: int)
    requires
        len >= 0,
        size > 0,
    ensures
        0 <= guard_count(len, size) <= len,
{
    assert(0 <= len / size <= len) by (nonlinear_arith)
        requires
            len >= 0,
            size > 0,
    ;
}

/// The reason a policy reports on failure: a short buffer is reported as
/// [`ErrorReason::NotEnoughBytes`], anything else that fails as
/// [`ErrorReason::InexactByteCount`].
pub open spec fn guard_reason(len: int, size: int) -> ErrorReason {
    if len < size {
        ErrorReason::NotEnoughBytes
    } else {
        ErrorReason::InexactByteCount
    }
}

/// The error a policy returns when it refuses `len` bytes against elements
/// of `size` bytes.
pub open spec fn guard_error(len: int, size: int) -> Error {
    Error {
        required: size as usize,
        actual: len as usize,
        reason: guard_reason(len, size),
    }
}

impl GuardPolicy {
    /// Decides how many elements of `elem_size` bytes a buffer of
    /// `byte_len` bytes yields under this policy.
    ///
    /// The decision is pure arithmetic on the two lengths:
    ///
    /// * `Permissive` never fails and returns `byte_len / elem_size`;
    /// * `SingleValue` returns 1 exactly when `byte_len == elem_size`,
    ///   refusing a short buffer as `NotEnoughBytes` and a long one as
    ///   `InexactByteCount`;
    /// * `SingleMany` returns `byte_len / elem_size` exactly when
    ///   `byte_len >= elem_size`, refusing anything shorter (a zero-length
    ///   buffer included) as `NotEnoughBytes`;
    /// * `Pedantic` returns `byte_len / elem_size` exactly when `byte_len`
    ///   is a multiple of `elem_size` (zero included), refusing a short
    ///   nonempty buffer as `NotEnoughBytes` and any other remainder as
    ///   `InexactByteCount`.
    pub fn validate(self, byte_len: usize, elem_size: usize) -> (r: Result<usize, Error>)
        requires
            elem_size > 0,
        ensures
            guard_allows(self, byte_len as int, elem_size as int) ==> (r matches Ok(count)
                && count == guard_count(byte_len as int, elem_size as int)),
            !guard_allows(self, byte_len as int, elem_size as int) ==> r == Err::<usize, Error>(
                guard_error(byte_len as int, elem_size as int),
            ),
    {
        match self {
            GuardPolicy::Permissive => Ok(byte_len / elem_size),
            GuardPolicy::SingleValue => {
                if byte_len < elem_size {
                    Err(Error {
                        required: elem_size,
                        actual: byte_len,
                        reason: ErrorReason::NotEnoughBytes,
                    })
                } else if byte_len > elem_size {
                    Err(Error {
                        required: elem_size,
                        actual: byte_len,
                        reason: ErrorReason::InexactByteCount,
                    })
                } else {
                    Ok(byte_len / elem_size)
                }
            },
            GuardPolicy::SingleMany => {
                if byte_len < elem_size {
                    Err(Error {
                        required: elem_size,
                        actual: byte_len,
                        reason: ErrorReason::NotEnoughBytes,
                    })
                } else {
                    Ok(byte_len / elem_size)
                }
            },
            GuardPolicy::Pedantic => {
                if byte_len % elem_size != 0 {
                    if byte_len < elem_size {
                        Err(Error {
                            required: elem_size,
                            actual: byte_len,
                            reason: ErrorReason::NotEnoughBytes,
                        })
                    } else {
                        Err(Error {
                            required: elem_size,
                            actual: byte_len,
                            reason: ErrorReason::InexactByteCount,
                        })
                    }
                } else {
                    Ok(byte_len / elem_size)
                }
            },
        }
    }
}

} // verus!
