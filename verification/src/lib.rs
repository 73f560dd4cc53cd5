//! Checked reinterpretation of byte buffers as sequences of fixed-layout
//! values.
//!
//! The crate decides, from a buffer's length, its starting address and the
//! target element type's layout, whether viewing the buffer as a sequence
//! of elements is permitted, and how many elements such a view holds.  The
//! decision layers are:
//!
//! * [`guard`] — the four length-validation policies;
//! * [`align`] — the address alignment check;
//! * [`base`] — length validation alone, as the unchecked layer applies it;
//! * [`full`] — alignment plus length validation, the checked surface;
//! * [`buffer`] — reuse of a growable buffer's storage for a different
//!   element type of identical size and alignment.
//!
//! The crate performs no pointer reinterpretation itself: a caller that
//! holds a raw buffer feeds its address, length and target layout in, and
//! builds the typed view only after the checks here have passed.

pub mod align;
pub mod base;
pub mod buffer;
pub mod error;
pub mod full;
pub mod guard;
pub mod layout;

pub use buffer::{transmute_vec, GrowableBuf, IncompatibleVecTarget};
pub use error::{Error, ErrorReason};
pub use full::{
    transmute_many, transmute_many_mut, transmute_many_pedantic, transmute_many_pedantic_mut,
    transmute_many_permissive, transmute_many_permissive_mut, transmute_one,
    transmute_one_pedantic,
};
pub use guard::GuardPolicy;
pub use layout::TypeLayout;
