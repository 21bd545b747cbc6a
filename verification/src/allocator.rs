use vstd::prelude::*;

use crate::context::SelectionContext;
use crate::layout::Layout;
use crate::tag::Tag;

verus! {

/// A raw region of memory as a backend hands it out: the address of its
/// first byte, together with the region's bytes.
pub struct Block {
    /// Address of the first byte of the region.
    pub base: usize,
    /// The region's bytes.
    pub bytes: Vec<u8>,
}

impl Block {
    /// What a backend owes for a region serving `layout`: the requested
    /// length, a start aligned as requested, and an end that stays
    /// addressable.
    pub open spec fn wf(self, layout: Layout) -> bool {
        &&& self.bytes@.len() == layout.size
        &&& self.base % layout.align == 0
        &&& self.base + layout.size <= usize::MAX
    }
}

/// The contract every registered backend must satisfy, stated over the
/// closed dispatch table as a whole: an implementor routes each valid tag
/// to the allocate and deallocate of exactly one backend, with no
/// fallthrough. The *set* of backends is fixed when the table is built;
/// only the selection among them changes at run time.
pub trait MultiAllocatorBackend: Sized {
    /// How many backends are registered. Valid tags are exactly the values
    /// strictly below this count, which never changes.
    spec fn backend_count(&self) -> u8;

    /// Which region the dispatch table last handed out from a backend's
    /// allocate, if the last allocate succeeded: the observation the
    /// facade's allocation guarantee is stated over.
    spec fn last_alloc(&self) -> Option<Block>;

    /// Which region, at which layout, was last handed to which backend's
    /// deallocate: the observation the routing guarantee is stated over.
    spec fn last_freed(&self) -> Option<(Tag, Block, Layout)>;

    /// The number of registered backends, as a runtime value.
    fn count(&self) -> (c: u8)
        ensures
            c == self.backend_count(),
    ;

    /// Ask the backend named by `tag` for a region of `layout`; `None`
    /// reports that backend's allocation failure.
    fn allocate(&mut self, tag: Tag, layout: Layout) -> (r: Option<Block>)
        requires
            tag.valid(old(self).backend_count()),
            layout.wf(),
        ensures
            final(self).backend_count() == old(self).backend_count(),
            final(self).last_alloc() == r,
            r matches Some(b) ==> b.wf(layout),
    ;

    /// Hand a region back to the backend named by `tag` for deallocation.
    fn deallocate(&mut self, tag: Tag, block: Block, layout: Layout)
        requires
            tag.valid(old(self).backend_count()),
            layout.wf(),
            block.wf(layout),
        ensures
            final(self).backend_count() == old(self).backend_count(),
            final(self).last_freed() matches Some((t, b, l)) && t == tag && b == block && l
                == layout,
    ;
}

/// A live allocation as the caller of the uniform interface holds it: the
/// address handed to the caller, together with the combined region that
/// backs it (hidden header, then user data).
pub struct Allocation {
    /// The address the caller got: just past the hidden header.
    pub ptr: usize,
    /// The combined region; its first byte carries the backend tag.
    pub block: Block,
}

impl Allocation {
    /// The tag recorded in the hidden header: which backend produced this
    /// allocation and must service its deallocation.
    pub open spec fn header_tag(self) -> u8 {
        self.block.bytes@[0]
    }

    /// Shape of an allocation made for `layout`: the combined region serves
    /// the combined layout (user size grown by one alignment-sized header),
    /// and the caller's address lies exactly one header past the region's
    /// start. This last equation alone is what lets deallocation recover
    /// the region's start from the caller's address.
    pub open spec fn wf(self, layout: Layout) -> bool {
        &&& layout.wf()
        &&& layout.fits()
        &&& self.block.bytes@.len() == layout.size + layout.align
        &&& self.block.base % layout.align == 0
        &&& self.block.base + layout.size + layout.align <= usize::MAX
        &&& self.ptr == self.block.base + layout.align
    }
}

/// The facade satisfying the uniform allocation interface over several
/// backends: it routes each allocation to the backend currently selected,
/// hides that backend's tag in a header before the user data, and routes
/// each deallocation to the backend the header names — not to the backend
/// selected at free time.
pub struct MultiAllocator<B: MultiAllocatorBackend> {
    backend: B,
}

impl<B: MultiAllocatorBackend> MultiAllocator<B> {
    /// The dispatch table this facade routes through.
    pub closed spec fn spec_backend(&self) -> B {
        self.backend
    }

    /// How many backends the table registers.
    pub open spec fn backend_count(&self) -> u8 {
        self.spec_backend().backend_count()
    }

    pub fn new(backend: B) -> (r: MultiAllocator<B>)
        ensures
            r.spec_backend() == backend,
    {
        MultiAllocator { backend }
    }

    /// Read access to the dispatch table, so a caller can observe what its
    /// backends recorded.
    pub fn backend(&self) -> (r: &B)
        ensures
            *r == self.spec_backend(),
    {
        &self.backend
    }

    /// Allocate `layout` from the backend the context currently selects.
    ///
    /// The combined region requested from that backend is one header
    /// (alignment-sized) larger than asked; the selected tag is written
    /// into the header's first byte and the address just past the header
    /// goes to the caller, still a multiple of the requested alignment.
    /// A backend's allocation failure is propagated unchanged: no retry,
    /// no fallback backend.
    pub fn allocate(&mut self, ctx: &SelectionContext, layout: Layout) -> (r: Option<Allocation>)
        requires
            ctx.spec_current() < old(self).backend_count(),
            layout.wf(),
            layout.fits(),
        ensures
            final(self).backend_count() == old(self).backend_count(),
            // The result is exactly the backend's response: success if and
            // only if the backend's allocate succeeded, and then the
            // backend's region as it came, with the selected tag written
            // into the header's first byte and the address one header past
            // its start handed to the caller.
            r is Some <==> final(self).spec_backend().last_alloc() is Some,
            r matches Some(a) ==> final(self).spec_backend().last_alloc() matches Some(b) && {
                &&& a.block.base == b.base
                &&& a.block.bytes@ == b.bytes@.update(0, ctx.spec_current())
                &&& a.ptr == b.base + layout.align
            },
            r matches Some(a) ==> {
                &&& a.wf(layout)
                &&& a.header_tag() == ctx.spec_current()
                &&& a.ptr % layout.align == 0
            },
    {
        let tag_size = layout.header_size();
        let new_layout = layout.combined();
        let allocator_tag = ctx.current();
        let count = self.backend.count();
        let tag = match Tag::from_raw(allocator_tag, count) {
            Some(t) => t,
            None => unreached(),
        };
        match self.backend.allocate(tag, new_layout) {
            None => None,
            Some(mut block) => {
                // Write the tag into the hidden header's first byte.
                block.bytes.set(0, allocator_tag);
                let user_ptr = block.base + tag_size;
                proof {
                    // A region start that is a multiple of the alignment
                    // stays one after growing by exactly one alignment.
                    assert(user_ptr % layout.align == 0) by (nonlinear_arith)
                        requires
                            layout.align >= 1,
                            block.base % layout.align == 0,
                            user_ptr == block.base + layout.align,
                    ;
                }
                Some(Allocation { ptr: user_ptr, block })
            },
        }
    }

    /// Give an allocation back to the backend that produced it.
    ///
    /// The region's start is recovered by subtracting the header size (the
    /// alignment) from the caller's address; the tag read from the header
    /// names the backend the combined region is forwarded to, whatever the
    /// selection context holds by now.
    ///
    /// The caller must hand back exactly what a successful `allocate` with the
    /// same layout returned, header untouched — the same precondition the
    /// uniform allocation interface already imposes on every free.
    pub fn deallocate(&mut self, allocation: Allocation, layout: Layout)
        requires
            allocation.wf(layout),
            allocation.header_tag() < old(self).backend_count(),
        ensures
            // The backend named by the header — not by any current
            // selection — received the untouched combined region, at the
            // reconstructed combined layout.
            final(self).backend_count() == old(self).backend_count(),
            final(self).spec_backend().last_freed() matches Some((t, b, l))
                && t.value() == allocation.header_tag()
                && b == allocation.block
                && l.size == layout.size + layout.align
                && l.align == layout.align,
    {
        let tag_size = layout.header_size();
        // Subtract the header size to recover the combined region's start.
        let region_base = allocation.ptr - tag_size;
        assert(region_base == allocation.block.base);
        let new_layout = layout.combined();
        // Read which backend produced this block from the hidden header.
        let raw_tag = allocation.block.bytes[0];
        let count = self.backend.count();
        let tag = match Tag::from_raw(raw_tag, count) {
            Some(t) => t,
            None => unreached(),
        };
        self.backend.deallocate(tag, allocation.block, new_layout);
    }
}

/// Round trip: a successful allocation can always be deallocated.
///
/// Everything `allocate` ensures of its result — its shape for the layout
/// and the header carrying the tag that was selected, which was in range —
/// implies everything `deallocate` requires of its argument; and the region
/// start deallocation recovers by subtracting the header size from the
/// caller's address is exactly the start of the region the backend handed
/// out, so the combined region goes back to a backend exactly as it came.
pub proof fn lemma_round_trip(
    a: Allocation,
    layout: Layout,
    at_alloc: SelectionContext,
    backend_count: u8,
)
    requires
        at_alloc.spec_current() < backend_count,
        a.wf(layout),
        a.header_tag() == at_alloc.spec_current(),
    ensures
        a.wf(layout),
        a.header_tag() < backend_count,
        a.ptr - layout.align == a.block.base,
{
}

/// Isolation: an allocation made while tag A was selected is freed through
/// backend A, even if the selection has since changed to any other value.
///
/// Deallocation routes by the hidden header alone, which still carries the
/// tag selected at allocation time; the selection at free time plays no
/// part in it.
pub proof fn lemma_isolation<B: MultiAllocatorBackend>(
    after_free: B,
    a: Allocation,
    layout: Layout,
    at_alloc: SelectionContext,
    at_free: SelectionContext,
)
    requires
        a.wf(layout),
        a.header_tag() == at_alloc.spec_current(),
        // What `deallocate` ensures of the dispatch table it routed through:
        after_free.last_freed() matches Some((t, b, l)) && t.value() == a.header_tag() && b
            == a.block,
    ensures
        // The backend that observed the free is the one selected at
        // allocation time, whatever `at_free` selects, and it received the
        // untouched combined region.
        after_free.last_freed() matches Some((t, b, l)) && t.value() == at_alloc.spec_current()
            && b == a.block,
{
}

} // verus!
