use allockit::Allocator;
use allockit::RawVec;
use allockit::StackAllocator;
use allockit::SystemAllocator;

#[test]
fn drop_empty() {
    let _drop: RawVec<SystemAllocator> = RawVec::new_in(SystemAllocator, 8, 8);
}

#[test]
fn grow() {
    let mut uwu: RawVec<SystemAllocator> = RawVec::new_in(SystemAllocator, 8, 8);
    uwu.grow().unwrap();
}

#[test]
fn capacity_follows_the_growth_sequence() {
    let mut v = RawVec::new_in(SystemAllocator, 4, 4);
    assert!(v.is_empty());
    assert_eq!(v.len(), 0);
    v.grow().unwrap();
    assert!(!v.is_empty());
    assert_eq!(v.len(), 1);
    v.grow().unwrap();
    assert_eq!(v.len(), 2);
    v.grow().unwrap();
    assert_eq!(v.len(), 4);
    v.grow().unwrap();
    assert_eq!(v.len(), 8);
}

#[test]
fn failed_growth_leaves_the_buffer_intact() {
    // 28 bytes: enough for capacities 1, 2 and 4 (with the replaced
    // blocks reclaimed in place), but not for 8.
    let mut v = RawVec::new_in(StackAllocator::new(0, 28), 4, 4);
    v.grow().unwrap();
    v.grow().unwrap();
    v.grow().unwrap();
    assert_eq!(v.len(), 4);
    assert!(v.grow().is_err());
    assert_eq!(v.len(), 4);
}

#[test]
fn growth_releases_the_replaced_block() {
    // Each step allocates the doubled block and then returns the old one.
    // The old block is never the arena's tail, so the arena reclaims
    // nothing in place: the cursor walks 4, then 4 + 8, then 12 + 16.
    let mut v = RawVec::new_in(StackAllocator::new(0, 28), 4, 4);
    v.grow().unwrap();
    v.grow().unwrap();
    v.grow().unwrap();
    let mut s = v.free();
    // Returning capacity 4 (the tail, 16 bytes at address 12) frees its
    // range for the next request.
    let b = s.allocate(4, 4, 4).unwrap();
    assert_eq!(b.addr, 12);
}

#[test]
fn empty_buffer_frees_nothing() {
    let v: RawVec<StackAllocator> = RawVec::new_in(StackAllocator::new(0, 16), 4, 4);
    let mut s = v.free();
    let b = s.allocate(1, 4, 4).unwrap();
    assert_eq!(b.addr, 0);
}
