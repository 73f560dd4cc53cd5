//! Length validation alone, as the unchecked reinterpretation layer
//! applies it.
//!
//! The functions here mirror the unchecked layer's entry points: they run
//! only the length policy, never the alignment check, and decide how many
//! elements of a given size the buffer yields.  A caller that builds a raw
//! typed view from these decisions is itself responsible for the buffer's
//! alignment and for the validity of the bit patterns it materializes.

use vstd::prelude::*;
use crate::error::Error;
use crate::guard::{guard_allows, guard_count, guard_error, GuardPolicy};

verus! {

/// Decides whether one value of `elem_size` bytes may be read from the
/// front of `bytes`: success exactly when the buffer holds at least
/// `elem_size` bytes, extraneous trailing bytes ignored.
pub fn from_bytes(bytes: &[u8], elem_size: usize) -> (r: Result<(), Error>)
    requires
        elem_size > 0,
    ensures
        bytes@.len() >= elem_size ==> r == Ok::<(), Error>(()),
        bytes@.len() < elem_size ==> r == Err::<(), Error>(
            guard_error(bytes@.len() as int, elem_size as int),
        ),
{
    match GuardPolicy::SingleMany.validate(bytes.len(), elem_size) {
        Ok(_) => Ok(()),
        Err(e) => Err(e),
    }
}

/// Decides whether one value of `elem_size` bytes may be read from
/// `bytes` with nothing left over: success exactly when the buffer holds
/// `elem_size` bytes.
pub fn from_bytes_pedantic(bytes: &[u8], elem_size: usize) -> (r: Result<(), Error>)
    requires
        elem_size > 0,
    ensures
        bytes@.len() == elem_size ==> r == Ok::<(), Error>(()),
        bytes@.len() != elem_size ==> r == Err::<(), Error>(
            guard_error(bytes@.len() as int, elem_size as int),
        ),
{
    match GuardPolicy::SingleValue.validate(bytes.len(), elem_size) {
        Ok(_) => Ok(()),
        Err(e) => Err(e),
    }
}

/// Decides, under the chosen `guard`, how many elements of `elem_size`
/// bytes a view of `bytes` yields.
pub fn transmute_many(bytes: &[u8], elem_size: usize, guard: GuardPolicy) -> (r: Result<
    usize,
    Error,
>)
    requires
        elem_size > 0,
    ensures
        guard_allows(guard, bytes@.len() as int, elem_size as int) ==> (r matches Ok(count)
            && count == guard_count(bytes@.len() as int, elem_size as int)),
        !guard_allows(guard, bytes@.len() as int, elem_size as int) ==> r == Err::<usize, Error>(
            guard_error(bytes@.len() as int, elem_size as int),
        ),
{
    guard.validate(bytes.len(), elem_size)
}

/// Decides, under the chosen `guard`, how many elements of `elem_size`
/// bytes a mutable view of `bytes` yields.  The buffer is only measured,
/// never changed.
pub fn transmute_many_mut(bytes: &mut [u8], elem_size: usize, guard: GuardPolicy) -> (r: Result<
    usize,
    Error,
>)
    requires
        elem_size > 0,
    ensures
        final(bytes)@ == old(bytes)@,
        guard_allows(guard, old(bytes)@.len() as int, elem_size as int) ==> (r matches Ok(count)
            && count == guard_count(old(bytes)@.len() as int, elem_size as int)),
        !guard_allows(guard, old(bytes)@.len() as int, elem_size as int) ==> r == Err::<
            usize,
            Error,
        >(guard_error(old(bytes)@.len() as int, elem_size as int)),
{
    guard.validate(bytes.len(), elem_size)
}

/// Decides how many whole elements of `elem_size` bytes fit in `bytes`,
/// trailing bytes silently discarded.  The permissive policy cannot fail,
/// so the count is returned directly.
pub fn transmute_many_permissive(bytes: &[u8], elem_size: usize) -> (count: usize)
    requires
        elem_size > 0,
    ensures
        count == guard_count(bytes@.len() as int, elem_size as int),
{
    bytes.len() / elem_size
}

} // verus!
