//! The opaque handle by which the native layer names one of its objects.

use vstd::prelude::*;

verus! {

/// A reference to state that the native layer manages.
///
/// A handle is known here only by a number: zero for the null handle, which
/// names nothing, and any other number for a live handle, by which its owner
/// finds the native object again. A handle cannot be copied: it is moved from
/// the place that held it to the value that comes to own it.
#[derive(Debug)]
pub struct FFIGCHandle {
    raw: usize,
}

impl View for FFIGCHandle {
    type V = usize;

    closed spec fn view(&self) -> usize {
        self.raw
    }
}

impl FFIGCHandle {
    /// Whether the handle names nothing.
    pub open spec fn spec_is_null(&self) -> bool {
        self@ == 0
    }

    /// The handle that is known by the number `raw`.
    pub fn from_raw(raw: usize) -> (handle: Self)
        ensures
            handle@ == raw,
    {
        FFIGCHandle { raw }
    }

    /// The null handle.
    pub fn null() -> (handle: Self)
        ensures
            handle@ == 0,
    {
        FFIGCHandle { raw: 0 }
    }

    /// The number by which the handle is known.
    pub fn as_raw(&self) -> (raw: usize)
        ensures
            raw == self@,
    {
        self.raw
    }

    /// Tells whether the handle names nothing.
    #[verifier::when_used_as_spec(spec_is_null)]
    pub fn is_null(&self) -> (null: bool)
        ensures
            null == (self@ == 0),
    {
        self.raw == 0
    }
}

} // verus!
