use vstd::prelude::*;

verus! {

/// The selection context of one thread of execution: which backend new
/// allocations on that thread should use right now.
///
/// This is plain mutable state; nesting and restoration of a temporary
/// override are layered on top of it by scoped selection. A context is
/// never shared between threads: each thread owns one.
#[derive(Clone, Copy, PartialEq, Eq, Structural, Debug)]
pub struct SelectionContext {
    current: u8,
}

impl SelectionContext {
    /// The raw tag of the backend currently selected.
    pub closed spec fn spec_current(self) -> u8 {
        self.current
    }

    /// A fresh context selects backend 0, the first-registered backend,
    /// until something overrides it.
    pub fn new() -> (r: SelectionContext)
        ensures
            r.spec_current() == 0,
    {
        SelectionContext { current: 0 }
    }

    /// Read the currently selected raw tag.
    pub fn current(&self) -> (r: u8)
        ensures
            r == self.spec_current(),
    {
        self.current
    }

    /// Select a backend by raw tag. No range check happens here: an
    /// out-of-range selection is caught when an allocation tries to
    /// dispatch through it.
    pub fn set(&mut self, new_tag: u8)
        ensures
            final(self).spec_current() == new_tag,
    {
        self.current = new_tag;
    }
}

} // verus!
