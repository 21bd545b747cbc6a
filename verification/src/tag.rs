use vstd::prelude::*;

verus! {

/// Identifier of one registered allocator backend among a closed set.
///
/// A tag is meaningful only relative to the number of registered backends:
/// it must be strictly below that count, or dispatching through it would
/// reach no backend at all.
#[derive(Clone, Copy, PartialEq, Eq, Structural, Debug)]
pub struct Tag {
    raw: u8,
}

impl Tag {
    /// The raw one-byte value this tag wraps.
    pub closed spec fn value(self) -> u8 {
        self.raw
    }

    /// Whether this tag names one of `backend_count` registered backends.
    pub open spec fn valid(self, backend_count: u8) -> bool {
        self.value() < backend_count
    }

    /// Checked construction from a raw byte: an out-of-range value is
    /// rejected outright, never clamped or wrapped into range.
    pub fn from_raw(raw: u8, backend_count: u8) -> (t: Option<Tag>)
        ensures
            raw < backend_count <==> (t matches Some(tag) && tag.value() == raw),
            raw >= backend_count <==> t is None,
    {
        if raw < backend_count {
            Some(Tag { raw })
        } else {
            None
        }
    }

    /// The raw byte, exactly what construction was given.
    pub fn to_raw(self) -> (r: u8)
        ensures
            r == self.value(),
    {
        self.raw
    }
}

} // verus!
