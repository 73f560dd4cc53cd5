//! The static layout of a target element type: its size and its minimum
//! alignment, both known before any buffer is examined.

use vstd::prelude::*;

verus! {

/// Whether `n` is a power of two (one included).
pub open spec fn is_pow2(n: nat) -> bool
    decreases n,
{
    if n == 0 {
        false
    } else if n == 1 {
        true
    } else {
        n % 2 == 0 && is_pow2(n / 2)
    }
}

/// Runtime test for [`is_pow2`], by repeated halving.
pub fn is_power_of_two(n: usize) -> (r: bool)
    ensures
        r == is_pow2(n as nat),
{
    if n == 0 {
        return false;
    }
    let mut m: usize = n;
    while m % 2 == 0
        invariant
            m > 0,
            is_pow2(n as nat) == is_pow2(m as nat),
        decreases m,
    {
        m = m / 2;
    }
    m == 1
}

/// The size and minimum alignment of an element type, in bytes.
///
/// A value of this struct stands for a concrete fixed-layout type of the
/// host language, so it is well formed only under the constraints every
/// such type obeys: a nonzero size, a power-of-two alignment, and a size
/// that is a multiple of the alignment.
#[derive(Clone, Copy, Debug, PartialEq, Eq, Structural)]
pub struct TypeLayout {
    pub size: usize,
    pub align: usize,
}

impl TypeLayout {
    /// The constraints that the layout of every fixed-layout type obeys.
    pub open spec fn wf(self) -> bool {
        &&& self.size > 0
        &&& is_pow2(self.align as nat)
        &&& self.size % self.align == 0
    }

    /// Builds a layout, refusing one that no fixed-layout type can have.
    pub fn new(size: usize, align: usize) -> (r: Option<TypeLayout>)
        ensures
            r matches Some(l) ==> l == (TypeLayout { size, align }) && l.wf(),
            r is None ==> !(TypeLayout { size, align }).wf(),
    {
        if size > 0 && is_power_of_two(align) && size % align == 0 {
            Some(TypeLayout { size, align })
        } else {
            None
        }
    }
}

} // verus!
