use vstd::prelude::*;

verus! {

/// A size/alignment description of an allocation request, as the uniform
/// allocation interface hands it over.
#[derive(Clone, Copy, PartialEq, Eq, Structural, Debug)]
pub struct Layout {
    /// Number of bytes requested.
    pub size: usize,
    /// Required alignment of the returned address, at least 1.
    pub align: usize,
}

impl Layout {
    /// A layout the uniform allocation interface may pass: the alignment is
    /// nonzero (every address is a multiple of 1, so 1 means "unaligned").
    pub open spec fn wf(self) -> bool {
        self.align >= 1
    }

    /// Room for the combined region (hidden header plus user data) can be
    /// described at all: its size fits the machine word.
    pub open spec fn fits(self) -> bool {
        self.size + self.align <= usize::MAX
    }

    pub fn new(size: usize, align: usize) -> (r: Layout)
        requires
            align >= 1,
        ensures
            r.size == size,
            r.align == align,
            r.wf(),
    {
        Layout { size, align }
    }

    /// How many bytes the hidden header occupies: exactly the alignment,
    /// not merely the width of a tag, so that the address just past the
    /// header keeps the alignment the caller asked for.
    pub fn header_size(self) -> (r: usize)
        ensures
            r == self.align,
    {
        self.align
    }

    /// The layout of the combined region actually requested from a backend:
    /// the user's size grown by the header, at the user's alignment.
    pub fn combined(self) -> (r: Layout)
        requires
            self.wf(),
            self.fits(),
        ensures
            r.size == self.size + self.align,
            r.align == self.align,
            r.wf(),
    {
        Layout { size: self.size + self.align, align: self.align }
    }
}

} // verus!
