use okaoka::scope::nested_scopes_restore;
use okaoka::{with_allocator, SelectionContext};

#[test]
fn scoped_override_is_restored() {
    let mut ctx = SelectionContext::new();
    ctx.set(3);
    with_allocator(&mut ctx, 1, |c: SelectionContext| {
        assert_eq!(c.current(), 1);
        c
    });
    assert_eq!(ctx.current(), 3);
}

#[test]
fn scoped_override_is_restored_from_default() {
    let mut ctx = SelectionContext::new();
    with_allocator(&mut ctx, 7, |c: SelectionContext| c);
    assert_eq!(ctx.current(), 0);
}

#[test]
fn restoration_ignores_what_the_work_selected() {
    let mut ctx = SelectionContext::new();
    ctx.set(2);
    with_allocator(&mut ctx, 1, |mut c: SelectionContext| {
        // The unit of work moves the selection around on its own...
        c.set(9);
        c
    });
    // ...and the prior selection still comes back.
    assert_eq!(ctx.current(), 2);
}

#[test]
fn scopes_nest() {
    let mut ctx = SelectionContext::new();
    ctx.set(5);
    with_allocator(&mut ctx, 1, |mut c: SelectionContext| {
        assert_eq!(c.current(), 1);
        with_allocator(&mut c, 2, |c_in: SelectionContext| {
            assert_eq!(c_in.current(), 2);
            c_in
        });
        // After the inner scope, the outer override is selected again.
        assert_eq!(c.current(), 1);
        c
    });
    // After the outer scope, the pre-existing selection is back.
    assert_eq!(ctx.current(), 5);
}

#[test]
fn nested_scopes_restore_runs() {
    let mut ctx = SelectionContext::new();
    ctx.set(4);
    nested_scopes_restore(&mut ctx, 1, 0);
    assert_eq!(ctx.current(), 4);
}
