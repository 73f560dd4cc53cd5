//! The failure report shared by every fallible check.

use vstd::prelude::*;

verus! {

/// Why a requested reinterpretation was refused.
#[derive(Clone, Copy, Debug, PartialEq, Eq, Structural)]
pub enum ErrorReason {
    /// The buffer holds fewer bytes than the policy demands.
    NotEnoughBytes,
    /// The buffer's length is not an exact multiple the policy accepts.
    InexactByteCount,
    /// The buffer's starting address is not a multiple of the target
    /// alignment.
    Unaligned,
    /// A growable-buffer reinterpretation was requested between element
    /// types of differing size or alignment.
    IncompatibleVecTarget,
}

/// A refused reinterpretation: the reason, together with what was required
/// and what was actually found.
///
/// For the length policies, `required` is the element size in bytes and
/// `actual` the buffer's byte length.  For the alignment check, `required`
/// is the target alignment and `actual` the offset of the address past the
/// nearest aligned address below it.  For the growable-buffer check,
/// `required` is the target element size and `actual` the source element
/// size.
#[derive(Clone, Copy, Debug, PartialEq, Eq, Structural)]
pub struct Error {
    pub required: usize,
    pub actual: usize,
    pub reason: ErrorReason,
}

} // verus!
