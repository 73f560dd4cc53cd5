//! The checked surface: alignment first, then the length policy.
//!
//! Every entry point here takes the buffer, the address at which the
//! buffer starts, and the target element type's [`TypeLayout`], and decides
//! whether a typed view over the buffer is permitted.  An alignment failure
//! always short-circuits before the length policy is evaluated: an
//! unaligned buffer cannot be viewed regardless of its length.
//!
//! The caller obtains the address from the buffer it intends to view;
//! nothing here reads memory, so the decisions are pure arithmetic over
//! the address, the length and the layout.

use vstd::prelude::*;
use crate::align::{aligned, check_alignment, unaligned_error};
use crate::error::Error;
use crate::guard::{guard_allows, guard_count, guard_error, lemma_count_fits, GuardPolicy};
use crate::layout::TypeLayout;

verus! {

/// Decides whether one value of layout `target` may be materialized from
/// the front of a buffer of `bytes@.len()` bytes starting at `addr`:
/// success exactly when the address is aligned and the buffer holds at
/// least one element's worth of bytes, extraneous trailing bytes ignored.
pub fn transmute_one(bytes: &[u8], addr: usize, target: TypeLayout) -> (r: Result<(), Error>)
    requires
        target.wf(),
    ensures
        !aligned(addr as int, target.align as int) ==> r == Err::<(), Error>(
            unaligned_error(addr as int, target.align as int),
        ),
        aligned(addr as int, target.align as int) && bytes@.len() >= target.size ==> r == Ok::<
            (),
            Error,
        >(()),
        aligned(addr as int, target.align as int) && bytes@.len() < target.size ==> r == Err::<
            (),
            Error,
        >(guard_error(bytes@.len() as int, target.size as int)),
{
    check_alignment(addr, target.align)?;
    match GuardPolicy::SingleMany.validate(bytes.len(), target.size) {
        Ok(_) => Ok(()),
        Err(e) => Err(e),
    }
}

/// Decides whether one value of layout `target` may be materialized from
/// a buffer of `bytes@.len()` bytes starting at `addr`, with nothing left
/// over: success exactly when the address is aligned and the buffer holds
/// exactly one element's worth of bytes.
pub fn transmute_one_pedantic(bytes: &[u8], addr: usize, target: TypeLayout) -> (r: Result<
    (),
    Error,
>)
    requires
        target.wf(),
    ensures
        !aligned(addr as int, target.align as int) ==> r == Err::<(), Error>(
            unaligned_error(addr as int, target.align as int),
        ),
        aligned(addr as int, target.align as int) && bytes@.len() == target.size ==> r == Ok::<
            (),
            Error,
        >(()),
        aligned(addr as int, target.align as int) && bytes@.len() != target.size ==> r == Err::<
            (),
            Error,
        >(guard_error(bytes@.len() as int, target.size as int)),
{
    check_alignment(addr, target.align)?;
    match GuardPolicy::SingleValue.validate(bytes.len(), target.size) {
        Ok(_) => Ok(()),
        Err(e) => Err(e),
    }
}

/// The outcome every checked many-element view decides: an unaligned
/// address fails first; an aligned address defers to the guard, which
/// either reports the element count or refuses the length.
pub open spec fn checked_view_outcome(
    guard: GuardPolicy,
    len: int,
    addr: int,
    target: TypeLayout,
) -> Result<usize, Error> {
    if !aligned(addr, target.align as int) {
        Err(unaligned_error(addr, target.align as int))
    } else if guard_allows(guard, len, target.size as int) {
        Ok(guard_count(len, target.size as int) as usize)
    } else {
        Err(guard_error(len, target.size as int))
    }
}

/// Decides, under the chosen `guard`, how many elements of layout
/// `target` a view of a buffer of `bytes@.len()` bytes starting at `addr`
/// yields; the alignment check runs first.
pub fn transmute_many(bytes: &[u8], addr: usize, target: TypeLayout, guard: GuardPolicy) -> (r:
    Result<usize, Error>)
    requires
        target.wf(),
    ensures
        r == checked_view_outcome(guard, bytes@.len() as int, addr as int, target),
{
    check_alignment(addr, target.align)?;
    guard.validate(bytes.len(), target.size)
}

/// Decides how many whole elements of layout `target` fit in a buffer of
/// `bytes@.len()` bytes starting at `addr`, trailing bytes silently
/// discarded.  Only the alignment check can fail.
pub fn transmute_many_permissive(bytes: &[u8], addr: usize, target: TypeLayout) -> (r: Result<
    usize,
    Error,
>)
    requires
        target.wf(),
    ensures
        r == checked_view_outcome(GuardPolicy::Permissive, bytes@.len() as int, addr as int, target),
        aligned(addr as int, target.align as int) ==> (r matches Ok(count) && count == guard_count(
            bytes@.len() as int,
            target.size as int,
        )),
{
    let n: usize = bytes.len();
    let r = transmute_many(bytes, addr, target, GuardPolicy::Permissive);
    proof {
        lemma_count_fits(n as int, target.size as int);
    }
    r
}

/// Decides how many elements of layout `target` a view of a buffer of
/// `bytes@.len()` bytes starting at `addr` yields, refusing both a short
/// nonempty buffer and trailing bytes; a zero-length buffer yields zero
/// elements.
pub fn transmute_many_pedantic(bytes: &[u8], addr: usize, target: TypeLayout) -> (r: Result<
    usize,
    Error,
>)
    requires
        target.wf(),
    ensures
        r == checked_view_outcome(GuardPolicy::Pedantic, bytes@.len() as int, addr as int, target),
{
    transmute_many(bytes, addr, target, GuardPolicy::Pedantic)
}

/// Decides, under the chosen `guard`, how many elements of layout
/// `target` a mutable view of `bytes` starting at `addr` yields.  The
/// buffer is only measured, never changed.
pub fn transmute_many_mut(
    bytes: &mut [u8],
    addr: usize,
    target: TypeLayout,
    guard: GuardPolicy,
) -> (r: Result<usize, Error>)
    requires
        target.wf(),
    ensures
        final(bytes)@ == old(bytes)@,
        r == checked_view_outcome(guard, old(bytes)@.len() as int, addr as int, target),
{
    check_alignment(addr, target.align)?;
    guard.validate(bytes.len(), target.size)
}

/// Decides how many whole elements of layout `target` fit in the mutable
/// buffer `bytes` starting at `addr`, trailing bytes silently discarded.
/// Only the alignment check can fail, and the buffer is never changed.
pub fn transmute_many_permissive_mut(bytes: &mut [u8], addr: usize, target: TypeLayout) -> (r:
    Result<usize, Error>)
    requires
        target.wf(),
    ensures
        final(bytes)@ == old(bytes)@,
        r == checked_view_outcome(
            GuardPolicy::Permissive,
            old(bytes)@.len() as int,
            addr as int,
            target,
        ),
        aligned(addr as int, target.align as int) ==> (r matches Ok(count) && count == guard_count(
            old(bytes)@.len() as int,
            target.size as int,
        )),
{
    let n: usize = bytes.len();
    let r = transmute_many_mut(bytes, addr, target, GuardPolicy::Permissive);
    proof {
        lemma_count_fits(n as int, target.size as int);
    }
    r
}

/// Decides how many elements of layout `target` a mutable view of `bytes`
/// starting at `addr` yields, refusing both a short nonempty buffer and
/// trailing bytes; a zero-length buffer yields zero elements.  The buffer
/// is never changed.
pub fn transmute_many_pedantic_mut(bytes: &mut [u8], addr: usize, target: TypeLayout) -> (r:
    Result<usize, Error>)
    requires
        target.wf(),
    ensures
        final(bytes)@ == old(bytes)@,
        r == checked_view_outcome(
            GuardPolicy::Pedantic,
            old(bytes)@.len() as int,
            addr as int,
            target,
        ),
{
    transmute_many_mut(bytes, addr, target, GuardPolicy::Pedantic)
}

} // verus!
