//! Exclusive ownership of one raw OS handle value.
//!
//! A [`Handle`] holds the raw word of exactly one kernel resource. Its
//! constructor refuses the null word and the platform's invalid-handle
//! sentinel, so a live `Handle` always designates a resource; ownership moves
//! with the value and is never duplicated, so the release that the surrounding
//! program performs when it lets go of a `Handle` happens exactly once.

use vstd::prelude::*;

verus! {

/// The raw word of a null handle.
pub const NULL_HANDLE_VALUE: usize = 0;

/// The platform's invalid-handle sentinel: the all-ones word.
pub const INVALID_HANDLE_VALUE: usize = usize::MAX;

/// Exclusive owner of one raw handle word.
pub struct Handle {
    raw: usize,
}

impl Handle {
    /// The raw word this handle owns.
    pub closed spec fn spec_raw(&self) -> usize {
        self.raw
    }

    /// A live handle never holds the null word nor the invalid sentinel.
    pub open spec fn wf(&self) -> bool {
        self.spec_raw() != NULL_HANDLE_VALUE && self.spec_raw() != INVALID_HANDLE_VALUE
    }

    /// Takes ownership of an already-validated raw handle word. The caller
    /// must have checked the word against null and the invalid sentinel.
    pub fn new(raw: usize) -> (h: Handle)
        requires
            raw != NULL_HANDLE_VALUE,
            raw != INVALID_HANDLE_VALUE,
        ensures
            h.spec_raw() == raw,
            h.wf(),
    {
        Handle { raw }
    }

    /// Lends the raw word without giving up ownership.
    pub fn as_raw(&self) -> (r: usize)
        ensures
            r == self.spec_raw(),
    {
        self.raw
    }

    /// Forfeits ownership, returning the raw word. Consuming the `Handle`
    /// suppresses whatever release its owner would otherwise perform: after
    /// this call the resource belongs to the caller of `into_raw`.
    pub fn into_raw(self) -> (r: usize)
        ensures
            r == self.spec_raw(),
    {
        self.raw
    }
}

} // verus!
