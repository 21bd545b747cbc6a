use vstd::prelude::*;

use crate::context::SelectionContext;

verus! {

/// Run a unit of work with the given backend selected, restoring the
/// previously selected backend after it returns.
///
/// The unit of work receives the thread's selection context with the
/// override already in force, and hands the context back when done; it may
/// change the selection as it pleases (scopes nest freely this way), yet
/// the selection that was current before this call is current again after
/// it, unconditionally.
///
/// No range check happens here: selecting a tag that names no registered
/// backend is caught when an allocation tries to dispatch through it.
pub fn with_allocator<F: FnOnce(SelectionContext) -> SelectionContext>(
    ctx: &mut SelectionContext,
    allocator_tag: u8,
    closure: F,
)
    requires
        forall|c: SelectionContext|
            c.spec_current() == allocator_tag ==> call_requires(closure, (c,)),
    ensures
        final(ctx).spec_current() == old(ctx).spec_current(),
        exists|c: SelectionContext, r: SelectionContext|
            c.spec_current() == allocator_tag && #[trigger] call_ensures(closure, (c,), r),
{
    let old_tag = ctx.current();
    ctx.set(allocator_tag);
    let inner = closure(*ctx);
    *ctx = inner;
    ctx.set(old_tag);
}

/// Scopes nest by plain save/restore composition, with no stack of their
/// own: inside the inner scope the inner tag is selected; when the inner
/// scope ends, the outer tag is selected again; and when the outer scope
/// ends, whatever was selected before is back, for every pair of tags and
/// every starting selection.
pub fn nested_scopes_restore(ctx: &mut SelectionContext, outer_tag: u8, inner_tag: u8)
    ensures
        final(ctx).spec_current() == old(ctx).spec_current(),
{
    with_allocator(
        ctx,
        outer_tag,
        (|c: SelectionContext| -> (r: SelectionContext)
            requires
                (c.spec_current() == outer_tag),
            ensures
                (r.spec_current() == outer_tag),
            {
                let mut scoped = c;
                with_allocator(
                    &mut scoped,
                    inner_tag,
                    (|c_in: SelectionContext| -> (r_in: SelectionContext)
                        requires
                            (c_in.spec_current() == inner_tag),
                        {
                            // The inner unit of work observes the inner override.
                            assert(c_in.spec_current() == inner_tag);
                            c_in
                        }),
                );
                // Once the inner scope ends, the outer override is back.
                assert(scoped.spec_current() == outer_tag);
                scoped
            }),
    );
}

} // verus!
