//! Reuse of a growable buffer's storage for a different element type.
//!
//! A growable buffer is modeled by its raw storage: the bytes its
//! elements occupy, the layout of its element type, and its capacity in
//! elements.  Reinterpreting the buffer for another element type of
//! identical size and alignment touches none of the storage — only the
//! element layout changes — so length, capacity and contents all carry
//! over exactly.  A request between incompatible layouts fails, and the
//! failure hands the untouched original buffer back to the caller.

use vstd::prelude::*;
use crate::error::{Error, ErrorReason};
use crate::layout::TypeLayout;

verus! {

/// An owned, capacity-tracking buffer of fixed-layout elements, seen as
/// its raw storage: `data` holds the bytes of the `data.len() / elem.size`
/// live elements, and `cap` is the capacity in elements.
#[derive(Debug)]
pub struct GrowableBuf {
    /// The layout of the element type the storage is currently typed as.
    pub elem: TypeLayout,
    /// The bytes of the live elements, in storage order.
    pub data: Vec<u8>,
    /// The capacity in elements; the storage behind the buffer holds
    /// `cap * elem.size` bytes.
    pub cap: usize,
}

impl GrowableBuf {
    /// What every growable buffer obeys: a well-formed element layout,
    /// storage holding a whole number of elements, and a capacity of at
    /// least the live elements whose byte extent fits the address space.
    pub open spec fn wf(self) -> bool {
        &&& self.elem.wf()
        &&& self.data@.len() as int % self.elem.size as int == 0
        &&& self.data@.len() <= self.cap * self.elem.size
        &&& self.cap * self.elem.size <= usize::MAX
    }

    /// The number of live elements.
    pub open spec fn spec_len(self) -> int {
        self.data@.len() as int / self.elem.size as int
    }

    /// Builds a buffer of `elem`-typed elements over the byte storage
    /// `data` with capacity `cap` elements, refusing storage that does not
    /// hold a whole number of elements or exceeds the capacity.
    pub fn new(elem: TypeLayout, data: Vec<u8>, cap: usize) -> (r: Option<GrowableBuf>)
        requires
            elem.wf(),
        ensures
            r matches Some(b) ==> b == (GrowableBuf { elem, data, cap }) && b.wf(),
            r is None ==> !(GrowableBuf { elem, data, cap }).wf(),
    {
        if data.len() % elem.size == 0 {
            if let Some(cap_bytes) = cap.checked_mul(elem.size) {
                if data.len() <= cap_bytes {
                    return Some(GrowableBuf { elem, data, cap });
                }
            }
        }
        None
    }

    /// The number of live elements.
    pub fn len(&self) -> (n: usize)
        requires
            self.wf(),
        ensures
            n == self.spec_len(),
    {
        proof {
            crate::guard::lemma_count_fits(self.data@.len() as int, self.elem.size as int);
        }
        self.data.len() / self.elem.size
    }
}

/// Whether a growable buffer of `source`-typed elements may reuse its
/// storage for `target`-typed elements: exactly when the two layouts have
/// the same size and the same alignment.
pub open spec fn vec_compat(source: TypeLayout, target: TypeLayout) -> bool {
    source.size == target.size && source.align == target.align
}

/// Decides [`vec_compat`] at runtime: whether storage typed for `source`
/// elements may be reused as storage for `target` elements.
pub fn compatible(source: TypeLayout, target: TypeLayout) -> (b: bool)
    ensures
        b == vec_compat(source, target),
{
    source.size == target.size && source.align == target.align
}

/// The buffer [`transmute_vec`] returns on success: the same storage,
/// the same capacity, only the element layout exchanged.
pub open spec fn retarget(buf: GrowableBuf, target: TypeLayout) -> GrowableBuf {
    GrowableBuf { elem: target, data: buf.data, cap: buf.cap }
}

/// A refused growable-buffer reinterpretation, carrying the untouched
/// original buffer back to the caller together with the layout that was
/// requested.
#[derive(Debug)]
pub struct IncompatibleVecTarget {
    /// The original buffer, exactly as it was handed in.
    pub buf: GrowableBuf,
    /// The element layout the reinterpretation was requested for.
    pub target: TypeLayout,
}

impl IncompatibleVecTarget {
    /// The failure as a plain [`Error`] record: the target element size
    /// against the source element size.
    pub fn to_error(&self) -> (e: Error)
        ensures
            e == (Error {
                required: self.target.size,
                actual: self.buf.elem.size,
                reason: ErrorReason::IncompatibleVecTarget,
            }),
    {
        Error {
            required: self.target.size,
            actual: self.buf.elem.size,
            reason: ErrorReason::IncompatibleVecTarget,
        }
    }
}

/// Reinterprets the growable buffer `buf` as a buffer of `target`-typed
/// elements.
///
/// Success exactly when the two element layouts agree in both size and
/// alignment; the result then reuses the storage as it stands, so its
/// contents are bit-identical, and its length and capacity (measured in
/// elements) equal the original's.  Otherwise the original buffer comes
/// back untouched inside the error.
pub fn transmute_vec(buf: GrowableBuf, target: TypeLayout) -> (r: Result<
    GrowableBuf,
    IncompatibleVecTarget,
>)
    requires
        buf.wf(),
        target.wf(),
    ensures
        vec_compat(buf.elem, target) ==> r == Ok::<GrowableBuf, IncompatibleVecTarget>(
            retarget(buf, target),
        ),
        !vec_compat(buf.elem, target) ==> r == Err::<GrowableBuf, IncompatibleVecTarget>(
            IncompatibleVecTarget { buf, target },
        ),
        r matches Ok(out) ==> out.wf() && out.spec_len() == buf.spec_len(),
{
    if buf.elem.size != target.size || buf.elem.align != target.align {
        return Err(IncompatibleVecTarget { buf, target });
    }
    let GrowableBuf { elem: _, data, cap } = buf;
    Ok(GrowableBuf { elem: target, data, cap })
}

/// Reinterpreting a buffer for a compatible layout and then back for its
/// own layout restores the buffer exactly: the storage bytes, the
/// capacity and the element layout are all as they began, so length and
/// capacity scale consistently (both are unchanged) and the contents are
/// bit-identical.
pub proof fn lemma_transmute_vec_round_trip(buf: GrowableBuf, target: TypeLayout)
    requires
        buf.wf(),
        target.wf(),
        vec_compat(buf.elem, target),
    ensures
        vec_compat(target, buf.elem),
        retarget(buf, target).wf(),
        retarget(buf, target).data@ == buf.data@,
        retarget(buf, target).cap == buf.cap,
        retarget(buf, target).spec_len() == buf.spec_len(),
        retarget(retarget(buf, target), buf.elem) == buf,
{
}

/// Recomputes a length or capacity counted in `src_size`-byte units as a
/// count of `dst_size`-byte units over the same storage: the byte total,
/// divided by the destination size, rounded down.  This is the arithmetic
/// the unchecked growable-buffer reinterpretation applies to both length
/// and capacity.
pub fn scale_units(count: usize, src_size: usize, dst_size: usize) -> (r: usize)
    requires
        dst_size > 0,
        count * src_size <= usize::MAX,
    ensures
        r == (count * src_size) as int / dst_size as int,
{
    (count * src_size) / dst_size
}

} // verus!
