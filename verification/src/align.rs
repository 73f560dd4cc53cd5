//! The address alignment check.
//!
//! A typed view may only start at an address that is a multiple of the
//! target type's minimum alignment.  Mutable and immutable buffers are
//! checked identically: mutability does not affect alignment.

use vstd::prelude::*;
use crate::error::{Error, ErrorReason};

verus! {

/// Whether address `addr` is a multiple of `align`.
pub open spec fn aligned(addr: int, align: int) -> bool {
    addr % align == 0
}

/// The error [`check_alignment`] returns on a misaligned address: the
/// required alignment, and the offset of the address past the nearest
/// aligned address below it.
pub open spec fn unaligned_error(addr: int, align: int) -> Error {
    Error {
        required: align as usize,
        actual: (addr % align) as usize,
        reason: ErrorReason::Unaligned,
    }
}

/// Decides whether a buffer starting at address `addr` satisfies the
/// target type's minimum alignment `align`: success exactly when `addr`
/// is a multiple of `align`.
///
/// A byte-sized, byte-aligned target (`align == 1`) always passes, since
/// every address is a multiple of one.
pub fn check_alignment(addr: usize, align: usize) -> (r: Result<(), Error>)
    requires
        align > 0,
    ensures
        aligned(addr as int, align as int) ==> r == Ok::<(), Error>(()),
        !aligned(addr as int, align as int) ==> r == Err::<(), Error>(
            unaligned_error(addr as int, align as int),
        ),
{
    let offset = addr % align;
    if offset == 0 {
        Ok(())
    } else {
        Err(Error { required: align, actual: offset, reason: ErrorReason::Unaligned })
    }
}

} // verus!
