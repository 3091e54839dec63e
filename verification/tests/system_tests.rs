use allockit::negative_rem_euclid;
use allockit::Allocator;
use allockit::Box;
use allockit::StackAllocator;
use allockit::SystemAllocator;

#[test]
fn system_allocation_succeeds_for_representable_sizes() {
    let mut sys = SystemAllocator;
    let b = sys.allocate(10, 8, 8).unwrap();
    assert_eq!(b.count, 10);
    assert_eq!(b.addr % 8, 0);
    sys.deallocate(b, 8);
}

#[test]
fn system_allocation_fails_on_unrepresentable_sizes() {
    let mut sys = SystemAllocator;
    // The byte size overflows usize.
    assert!(sys.allocate(usize::MAX, 2, 1).is_err());
    // The byte size exceeds isize::MAX, the bound of every allocation.
    assert!(sys.allocate(isize::MAX as usize, 2, 2).is_err());
}

#[test]
fn box_over_the_system_allocator() {
    let mut sys = SystemAllocator;
    let bx = Box::new_in(123_u64, &mut sys, 8, 8).unwrap();
    assert_eq!(bx.get(), &123);
    let value = bx.free(&mut sys);
    assert_eq!(value, 123);
}

#[test]
fn odd_alignment_padding() {
    // An alignment of three: the second one-byte request is padded from
    // offset 1 up to the next multiple of three.
    let mut s = StackAllocator::new(0, 9);
    let b1 = s.allocate(1, 1, 3).unwrap();
    assert_eq!(b1.addr, 0);
    let b2 = s.allocate(1, 1, 3).unwrap();
    assert_eq!(b2.addr, 3);
}

#[test]
fn euclidean_padding_values() {
    assert_eq!(negative_rem_euclid(0, 4), 0);
    assert_eq!(negative_rem_euclid(17, 4), 3);
    assert_eq!(negative_rem_euclid(20, 5), 0);
    assert_eq!(negative_rem_euclid(7, 1), 0);
    assert_eq!(negative_rem_euclid(9, 16), 7);
}
