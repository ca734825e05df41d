//! Destructive extraction: taking a value out of a place and leaving the
//! place empty.

use vstd::prelude::*;

verus! {

/// A type with an all-zero value, the state of a slot that holds nothing.
pub trait Zeroed: Sized {
    /// Whether every part of the value is zero.
    spec fn is_zeroed(&self) -> bool;

    /// The all-zero value.
    fn zeroed() -> (zero: Self)
        ensures
            zero.is_zeroed(),
    ;
}

/// Moves the value out of `slot` and leaves the all-zero value behind, so that
/// what the slot held has one owner, the caller, and the slot holds nothing
/// that could be taken or released again.
pub fn take_zeroed<T: Zeroed>(slot: &mut T) -> (taken: T)
    ensures
        taken == *old(slot),
        final(slot).is_zeroed(),
{
    let mut taken = T::zeroed();
    core::mem::swap(slot, &mut taken);
    taken
}

} // verus!
