use bump_allocator::{AllocError, EarlyAllocator};

const PAGE: usize = 0x1000;

fn fresh() -> EarlyAllocator<PAGE> {
    let mut a = EarlyAllocator::<PAGE>::new();
    a.init(0, 0x2000);
    a
}

#[test]
fn new_is_empty() {
    let a = EarlyAllocator::<PAGE>::new();
    assert_eq!(a.start(), 0);
    assert_eq!(a.end(), 0);
    assert_eq!(a.b_pos(), 0);
    assert_eq!(a.p_pos(), 0);
    assert_eq!(a.count(), 0);
    assert_eq!(a.page_size(), PAGE);
}

#[test]
fn init_sets_cursors() {
    let a = fresh();
    assert_eq!(a.b_pos(), 0);
    assert_eq!(a.p_pos(), 0x2000);
    assert_eq!(a.count(), 0);
    assert_eq!(a.end(), 0x2000);
}

#[test]
fn init_discards_earlier_state() {
    let mut a = fresh();
    assert_eq!(a.alloc_bytes(16, 8), Ok(0));
    a.init(0x10000, 0x3000);
    assert_eq!(a.start(), 0x10000);
    assert_eq!(a.b_pos(), 0x10000);
    assert_eq!(a.p_pos(), 0x13000);
    assert_eq!(a.count(), 0);
}

#[test]
fn first_byte_allocation() {
    let mut a = fresh();
    assert_eq!(a.alloc_bytes(16, 8), Ok(0));
    assert_eq!(a.b_pos(), 16);
    assert_eq!(a.count(), 1);
}

#[test]
fn boot_sequence() {
    let mut a = fresh();
    assert_eq!(a.alloc_bytes(16, 8), Ok(0));
    assert_eq!(a.alloc_pages(1, 12), Ok(0x1000));
    assert_eq!(a.p_pos(), 0x1000);
    a.dealloc(0, 16, 8);
    assert_eq!(a.count(), 0);
    assert_eq!(a.b_pos(), 0);
    assert_eq!(a.alloc_pages(1, 12), Ok(0));
    assert_eq!(a.p_pos(), 0);
    assert_eq!(a.b_pos(), 0);
    assert_eq!(a.alloc_pages(1, 12), Err(AllocError::InvalidParam));
    assert_eq!(a.p_pos(), 0);
}

#[test]
fn byte_allocation_is_aligned() {
    let mut a = fresh();
    assert_eq!(a.alloc_bytes(3, 1), Ok(0));
    assert_eq!(a.alloc_bytes(8, 8), Ok(8));
    assert_eq!(a.alloc_bytes(1, 64), Ok(64));
    assert_eq!(a.b_pos(), 65);
    for align in [1usize, 2, 4, 16, 256, 4096] {
        let mut b = EarlyAllocator::<PAGE>::new();
        b.init(5, 0x3000);
        let r = b.alloc_bytes(10, align).unwrap();
        assert_eq!(r % align, 0);
        assert!(r >= 5 && r < 5 + align);
    }
}

#[test]
fn byte_allocation_collides_with_pages() {
    let mut a = fresh();
    assert_eq!(a.alloc_pages(1, 0), Ok(0x1000));
    assert_eq!(a.alloc_bytes(0x1000, 1), Ok(0));
    assert_eq!(a.alloc_bytes(1, 1), Err(AllocError::NoMemory));
    assert_eq!(a.b_pos(), 0x1000);
    assert_eq!(a.count(), 1);
    assert_eq!(a.alloc_bytes(0, 1), Ok(0x1000));
}

#[test]
fn byte_allocation_exact_fit_and_one_over() {
    let mut a = fresh();
    assert_eq!(a.alloc_bytes(0x2001, 1), Err(AllocError::NoMemory));
    assert_eq!(a.alloc_bytes(0x2000, 1), Ok(0));
    assert_eq!(a.available_bytes(), 0);
}

#[test]
fn byte_allocation_alignment_pushes_past_pages() {
    let mut a = fresh();
    assert_eq!(a.alloc_bytes(1, 1), Ok(0));
    assert_eq!(a.alloc_bytes(0, 0x4000), Err(AllocError::NoMemory));
    assert_eq!(a.b_pos(), 1);
}

#[test]
fn byte_allocation_overflow_is_invalid() {
    let mut a = EarlyAllocator::<PAGE>::new();
    a.init(usize::MAX - 0x100, 0x100);
    assert_eq!(a.alloc_bytes(0x101, 1), Err(AllocError::InvalidParam));
    assert_eq!(a.alloc_bytes(0x100, 1), Ok(usize::MAX - 0x100));
    a.dealloc(usize::MAX - 0x100, 0x100, 1);
    assert_eq!(a.alloc_bytes(usize::MAX, 1), Err(AllocError::InvalidParam));
    assert_eq!(a.alloc_bytes(1, 0x1000), Err(AllocError::InvalidParam));
    assert_eq!(a.count(), 0);
    assert_eq!(a.b_pos(), usize::MAX - 0x100);
}

#[test]
fn dealloc_releases_only_with_last() {
    let mut a = fresh();
    assert_eq!(a.alloc_bytes(16, 8), Ok(0));
    assert_eq!(a.alloc_bytes(32, 16), Ok(16));
    assert_eq!(a.alloc_bytes(8, 8), Ok(48));
    a.dealloc(16, 32, 16);
    assert_eq!(a.count(), 2);
    assert_eq!(a.b_pos(), 56);
    a.dealloc(0, 16, 8);
    assert_eq!(a.b_pos(), 56);
    a.dealloc(48, 8, 8);
    assert_eq!(a.count(), 0);
    assert_eq!(a.b_pos(), 0);
    assert_eq!(a.used_bytes(), 0);
}

#[test]
fn page_allocation_aligns_down() {
    let mut a = fresh();
    assert_eq!(a.alloc_bytes(1, 1), Ok(0));
    assert_eq!(a.alloc_pages(0, 0), Ok(0x2000));
    let mut b = EarlyAllocator::<0x100>::new();
    b.init(0, 0x2000);
    assert_eq!(b.alloc_bytes(1, 1), Ok(0));
    assert_eq!(b.alloc_pages(1, 12), Ok(0x1000));
    assert_eq!(b.alloc_pages(1, 0), Ok(0xF00));
    assert_eq!(b.alloc_pages(1, 12), Err(AllocError::NoMemory));
    assert_eq!(b.p_pos(), 0xF00);
    assert_eq!(b.alloc_pages(1, 11), Ok(0x800));
}

#[test]
fn page_allocation_collides_with_bytes() {
    let mut a = fresh();
    assert_eq!(a.alloc_bytes(0x1001, 1), Ok(0));
    assert_eq!(a.alloc_pages(1, 12), Err(AllocError::NoMemory));
    assert_eq!(a.p_pos(), 0x2000);
    assert_eq!(a.alloc_pages(2, 0), Err(AllocError::NoMemory));
    assert_eq!(a.alloc_pages(3, 0), Err(AllocError::InvalidParam));
}

#[test]
fn page_allocation_invalid_requests() {
    let mut a = fresh();
    assert_eq!(a.alloc_pages(usize::MAX, 0), Err(AllocError::InvalidParam));
    assert_eq!(a.alloc_pages(1, usize::BITS as usize), Err(AllocError::InvalidParam));
    assert_eq!(a.alloc_pages(3, 0), Err(AllocError::InvalidParam));
    assert_eq!(a.p_pos(), 0x2000);
}

#[test]
fn dealloc_pages_changes_nothing() {
    let mut a = fresh();
    assert_eq!(a.alloc_pages(1, 12), Ok(0x1000));
    let used = a.used_pages();
    let avail = a.available_pages();
    a.dealloc_pages(0x1000, 1);
    assert_eq!(a.p_pos(), 0x1000);
    assert_eq!(a.used_pages(), used);
    assert_eq!(a.available_pages(), avail);
    assert_eq!(used, 1);
    assert_eq!(avail, 1);
}

#[test]
fn add_memory_is_a_no_op() {
    let mut a = fresh();
    assert_eq!(a.add_memory(0x4000, 0x1000), Ok(()));
    assert_eq!(a.end(), 0x2000);
    assert_eq!(a.p_pos(), 0x2000);
}

#[test]
fn byte_and_page_counts() {
    let mut a = EarlyAllocator::<PAGE>::new();
    a.init(0x1000, 0x4000);
    assert_eq!(a.total_bytes(), 0x4000);
    assert_eq!(a.total_pages(), 4);
    assert_eq!(a.total_bytes(), a.total_pages() * PAGE);
    assert_eq!(a.alloc_bytes(0x1800, 1), Ok(0x1000));
    assert_eq!(a.used_bytes(), 0x1800);
    assert_eq!(a.available_bytes(), 0x2800);
    assert_eq!(a.available_pages(), 2);
    assert_eq!(a.alloc_pages(1, 12), Ok(0x4000));
    assert_eq!(a.used_pages(), 1);
    assert_eq!(a.available_bytes(), 0x1800);
    assert_eq!(a.available_pages(), 1);
}

#[test]
fn total_pages_rounds_down_on_partial_page() {
    let mut a = EarlyAllocator::<PAGE>::new();
    a.init(0, 0x2800);
    assert_eq!(a.total_pages(), 2);
    assert_ne!(a.total_bytes(), a.total_pages() * PAGE);
}

#[test]
fn cohort_release_restores_arena() {
    let mut a = fresh();
    let reqs = [(16usize, 8usize), (5, 1), (100, 64), (0, 4)];
    for (size, align) in reqs {
        assert!(a.alloc_bytes(size, align).is_ok());
    }
    assert_eq!(a.count(), 4);
    assert_ne!(a.b_pos(), 0);
    for _ in 0..4 {
        a.dealloc(0, 0, 1);
    }
    assert_eq!(a.count(), 0);
    assert_eq!(a.b_pos(), a.start());
    assert_eq!(a.p_pos(), 0x2000);
}

#[test]
fn align_up_values() {
    assert_eq!(EarlyAllocator::<PAGE>::align_up(0, 8), 0);
    assert_eq!(EarlyAllocator::<PAGE>::align_up(1, 8), 8);
    assert_eq!(EarlyAllocator::<PAGE>::align_up(8, 8), 8);
    assert_eq!(EarlyAllocator::<PAGE>::align_up(0x1001, 0x1000), 0x2000);
    assert_eq!(EarlyAllocator::<PAGE>::align_up(7, 1), 7);
}
