use d3d9::com::{Com, ComObject};

#[test]
fn factory_object_starts_with_one_reference() {
    let obj = ComObject::new();
    assert_eq!(obj.count(), 1);
}

#[test]
fn retain_then_release_leaves_count_unchanged() {
    // Cloning a handle and dropping the clone is a net no-op on the
    // foreign object's count.
    let mut obj = ComObject::new();
    let handle = Com::with_ptr(0x1000);
    let before = obj.count();
    let clone = handle.retain(&mut obj);
    assert_eq!(obj.count(), before + 1);
    clone.release(&mut obj);
    assert_eq!(obj.count(), before);
    handle.release(&mut obj);
}

#[test]
fn one_release_per_construction_and_clone_balances() {
    // One construction and three clones owe exactly four releases; after
    // them the mock object's count is back to zero.
    let mut obj = ComObject::new();
    let handle = Com::with_ptr(0x2000);
    let a = handle.retain(&mut obj);
    let b = handle.retain(&mut obj);
    let c = a.retain(&mut obj);
    assert_eq!(obj.count(), 4);
    a.release(&mut obj);
    b.release(&mut obj);
    c.release(&mut obj);
    assert_eq!(obj.count(), 1);
    handle.release(&mut obj);
    assert_eq!(obj.count(), 0);
}

#[test]
fn clone_shares_the_same_handle_value() {
    let mut obj = ComObject::new();
    let handle = Com::with_ptr(0xABCD);
    let clone = handle.retain(&mut obj);
    assert_eq!(clone.as_ptr(), handle.as_ptr());
    clone.release(&mut obj);
    handle.release(&mut obj);
}

#[test]
fn null_handle_is_rejected_at_the_boundary() {
    assert!(Com::try_with_ptr(0).is_none());
}

#[test]
fn nonnull_handle_is_accepted() {
    let c = Com::try_with_ptr(42).unwrap();
    assert_eq!(c.as_ptr(), 42);
}
