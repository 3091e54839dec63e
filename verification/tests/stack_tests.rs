use allockit::Allocator;
use allockit::Box;
use allockit::MemBlock;
use allockit::StackAllocator;

#[test]
fn stack_allocation() {
    let mut alloc = StackAllocator::new(1000, 7);
    let my_box = Box::new_in(800813555_i32, &mut alloc, 4, 4).unwrap();
    assert_eq!(my_box.get(), &800813555);
}

#[test]
fn stack_allocation_multiple() {
    let mut alloc = StackAllocator::new(1000, 11);
    let box1 = Box::new_in(123456789_i32, &mut alloc, 4, 4).unwrap();
    let box2 = Box::new_in(314159265_i32, &mut alloc, 4, 4).unwrap();
    assert_eq!(box1.get(), &123456789);
    assert_eq!(box2.get(), &314159265);
}

#[test]
fn stack_deallocation() {
    let mut alloc = StackAllocator::new(1000, 7);
    let box1 = Box::new_in(42_u32, &mut alloc, 4, 4).unwrap();
    assert_eq!(box1.get(), &42);
    // not enough room for a second allocation
    assert!(Box::new_in(69_u32, &mut alloc, 4, 4).is_err());
    box1.free(&mut alloc);
    let box2 = Box::new_in(69_u32, &mut alloc, 4, 4).unwrap();
    assert_eq!(box2.get(), &69);
}

#[test]
fn allocation_until_capacity_exceeded() {
    // Byte-sized requests fill the region exactly; the call that would
    // exceed it fails, and the cursor stays where it was.
    let mut s = StackAllocator::new(200, 10);
    let b1 = s.allocate(4, 1, 1).unwrap();
    assert_eq!(b1.addr, 200);
    assert_eq!(b1.count, 4);
    let b2 = s.allocate(6, 1, 1).unwrap();
    assert_eq!(b2.addr, 204);
    assert!(s.allocate(1, 1, 1).is_err());
    // The failed call moved nothing: an empty request still lands exactly
    // at the old cursor.
    let b3 = s.allocate(0, 1, 1).unwrap();
    assert_eq!(b3.addr, 210);
}

#[test]
fn alignment_against_absolute_address() {
    // The region starts at an unaligned absolute address; placement pads
    // to the next multiple of the alignment: 17 + 3 = 20.
    let mut s = StackAllocator::new(17, 8);
    let b = s.allocate(1, 4, 4).unwrap();
    assert_eq!(b.addr, 20);
}

#[test]
fn lifo_reuse_of_tail_block() {
    let mut s = StackAllocator::new(64, 16);
    let a = s.allocate(1, 4, 4).unwrap();
    let b = s.allocate(1, 4, 4).unwrap();
    assert_eq!(a.addr, 64);
    assert_eq!(b.addr, 68);
    s.deallocate(b, 4);
    // A no-larger request with the same alignment reuses b's range exactly.
    let c = s.allocate(2, 2, 4).unwrap();
    assert_eq!(c.addr, b.addr);
}

#[test]
fn non_tail_deallocation_moves_nothing() {
    let mut s = StackAllocator::new(64, 16);
    let a = s.allocate(1, 4, 4).unwrap();
    let _b = s.allocate(1, 4, 4).unwrap();
    // a is not the most recent block; returning it is legal but
    // ineffective, so the next block still lands past b.
    s.deallocate(a, 4);
    let c = s.allocate(1, 4, 4).unwrap();
    assert_eq!(c.addr, 72);
}

#[test]
fn ownership_of_produced_and_foreign_blocks() {
    let mut s = StackAllocator::new(300, 8);
    let b = s.allocate(2, 4, 4).unwrap();
    assert!(s.owns(b));
    assert!(!s.owns(MemBlock { addr: 299, count: 1 }));
    assert!(!s.owns(MemBlock { addr: 308, count: 1 }));
    // The range test does not ask where a block really came from: a forged
    // description inside the region passes it.
    assert!(s.owns(MemBlock { addr: 305, count: 1 }));
}

#[test]
fn eight_byte_arena_two_fit_third_fails() {
    let mut s = StackAllocator::new(64, 8);
    let b1 = s.allocate(1, 4, 4).unwrap();
    let b2 = s.allocate(1, 4, 4).unwrap();
    assert_eq!(b1.addr, 64);
    assert_eq!(b2.addr, 68);
    assert!(s.allocate(1, 4, 4).is_err());
}

#[test]
fn seven_byte_arena_free_then_retry() {
    // 7 bytes free, aligned base, so no padding: the first 4-byte value
    // fits, the second does not (3 bytes remain), and after returning the
    // first the retry succeeds at the same address.
    let mut s = StackAllocator::new(64, 7);
    let b1 = s.allocate(1, 4, 4).unwrap();
    assert_eq!(b1.addr, 64);
    assert!(s.allocate(1, 4, 4).is_err());
    s.deallocate(b1, 4);
    let b2 = s.allocate(1, 4, 4).unwrap();
    assert_eq!(b2.addr, b1.addr);
}

#[test]
fn arena_size_is_reported() {
    let s = StackAllocator::new(0, 31);
    assert_eq!(s.size(), 31);
}

#[test]
fn oversized_request_overflows_safely() {
    // count * elem_size overflows usize; the request must fail cleanly.
    let mut s = StackAllocator::new(0, 1000);
    assert!(s.allocate(usize::MAX, 8, 8).is_err());
    // And the arena is still usable.
    let b = s.allocate(1, 8, 8).unwrap();
    assert_eq!(b.addr, 0);
}
