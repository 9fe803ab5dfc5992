use std::collections::HashMap;

use wdk_alloc::allocator::{
    requires_manual_alignment, AllocOutcome, FreeTarget, PoolRequest, WdkAllocator,
};
use wdk_alloc::layout::AllocLayout;
use wdk_alloc::pool::{min_pool_alignment, rust_tag, word_bytes, PAGE_SIZE, POOL_FLAG_NON_PAGED};

const MOCK_POOL_SIZE: usize = 16 * 1024;
/// Page-aligned base address of the simulated pool.
const MOCK_POOL_BASE: usize = 0x0040_0000;

fn expected_min_pool_alignment() -> usize {
    std::mem::size_of::<usize>() * 2
}

fn expected_rust_tag() -> u32 {
    u32::from_ne_bytes(*b"rust")
}

/// A stand-in for the kernel pool: it hands out addresses inside a
/// page-aligned region, records what it was asked, and keeps the words and
/// bytes written into the region.
#[derive(Default)]
struct MockPool {
    fail_next_allocation: bool,
    last_allocation_size: usize,
    last_pool_pointer: usize,
    last_freed_pointer: usize,
    last_pool_flags: u64,
    last_pool_tag: u32,
    words: HashMap<usize, usize>,
    bytes: HashMap<usize, u8>,
}

impl MockPool {
    fn allocate_pool(&mut self, request: &PoolRequest) -> usize {
        self.last_allocation_size = request.number_of_bytes;
        self.last_pool_flags = request.pool_flags;
        self.last_pool_tag = request.tag;
        if self.fail_next_allocation {
            self.fail_next_allocation = false;
            return 0;
        }
        let offset = if request.number_of_bytes >= PAGE_SIZE {
            0
        } else {
            expected_min_pool_alignment()
        };
        if request.number_of_bytes > MOCK_POOL_SIZE - offset {
            return 0;
        }
        let pool_pointer = MOCK_POOL_BASE + offset;
        self.last_pool_pointer = pool_pointer;
        pool_pointer
    }

    fn free_pool(&mut self, pool_pointer: usize) {
        self.last_freed_pointer = pool_pointer;
    }
}

fn layout(size: usize, align: usize) -> AllocLayout {
    AllocLayout::from_size_align(size, align).unwrap()
}

/// Runs an allocation through the allocator against the mock pool; 0 is null.
fn allocate(pool: &mut MockPool, layout: AllocLayout) -> usize {
    let allocator = WdkAllocator;
    let request = match allocator.pool_request(layout) {
        Some(request) => request,
        None => return 0,
    };
    let pool_pointer = pool.allocate_pool(&request);
    match allocator.complete_allocation(layout, pool_pointer) {
        AllocOutcome::Null => 0,
        AllocOutcome::Pool { address } => address,
        AllocOutcome::Realigned { address, slot, pool: stored } => {
            pool.words.insert(slot, stored);
            address
        }
        AllocOutcome::ReleaseAndFail { pool: stored } => {
            pool.free_pool(stored);
            0
        }
    }
}

/// Runs a deallocation through the allocator against the mock pool.
fn deallocate(pool: &mut MockPool, pointer: usize, layout: AllocLayout) {
    let allocator = WdkAllocator;
    match allocator.free_target(pointer, layout) {
        FreeTarget::Block { address } => pool.free_pool(address),
        FreeTarget::StoredIn { slot } => {
            let pool_pointer = pool.words[&slot];
            pool.free_pool(pool_pointer);
        }
    }
}

fn assert_allocation_covers(pool: &MockPool, pointer: usize, layout: AllocLayout) {
    let allocation_end = pool
        .last_pool_pointer
        .checked_add(pool.last_allocation_size)
        .unwrap();
    let layout_end = pointer.checked_add(layout.size()).unwrap();
    assert!(layout_end <= allocation_end);
}

#[test]
fn uses_pool_alignment_directly() {
    let mut pool = MockPool::default();
    let layout = layout(64, expected_min_pool_alignment());
    let pointer = allocate(&mut pool, layout);

    assert!(pointer != 0);
    assert_eq!(pointer, pool.last_pool_pointer);
    assert_allocation_covers(&pool, pointer, layout);
    assert_eq!(pool.last_pool_flags, 0x40);
    assert_eq!(pool.last_pool_tag, expected_rust_tag());

    deallocate(&mut pool, pointer, layout);
    assert_eq!(pool.last_freed_pointer, pointer);
}

#[test]
fn realigns_sub_page_allocations_and_frees_the_pool_pointer() {
    let mut pool = MockPool::default();
    let layout = layout(37, 256);
    let pointer = allocate(&mut pool, layout);
    let pool_pointer = pool.last_pool_pointer;

    assert!(pointer != 0);
    assert_ne!(pointer, pool_pointer);
    assert_eq!(pointer % layout.align(), 0);
    assert_allocation_covers(&pool, pointer, layout);

    pool.bytes.insert(pointer, 0xA5);
    assert_eq!(pool.bytes[&pointer], 0xA5);

    deallocate(&mut pool, pointer, layout);
    assert_eq!(pool.last_freed_pointer, pool_pointer);
}

#[test]
fn uses_page_alignment_directly() {
    let mut pool = MockPool::default();
    let layout = layout(PAGE_SIZE, PAGE_SIZE);
    let pointer = allocate(&mut pool, layout);

    assert!(pointer != 0);
    assert_eq!(pointer, pool.last_pool_pointer);
    assert_eq!(pointer % layout.align(), 0);
    assert_allocation_covers(&pool, pointer, layout);

    deallocate(&mut pool, pointer, layout);
    assert_eq!(pool.last_freed_pointer, pointer);
}

#[test]
fn propagates_pool_allocation_failure() {
    let mut pool = MockPool::default();
    let layout = layout(37, 256);
    pool.fail_next_allocation = true;

    assert_eq!(allocate(&mut pool, layout), 0);
    assert_eq!(pool.last_freed_pointer, 0);
}

#[test]
fn pool_constants() {
    assert_eq!(PAGE_SIZE, 4096);
    assert_eq!(POOL_FLAG_NON_PAGED, 0x40);
    assert_eq!(min_pool_alignment(), expected_min_pool_alignment());
    assert_eq!(word_bytes(), std::mem::size_of::<usize>());
    assert_eq!(rust_tag(), expected_rust_tag());
}

#[test]
fn manual_alignment_threshold_below_a_page() {
    let min = expected_min_pool_alignment();
    assert!(!requires_manual_alignment(layout(64, 1)));
    assert!(!requires_manual_alignment(layout(64, min)));
    assert!(requires_manual_alignment(layout(64, min * 2)));
    assert!(!requires_manual_alignment(layout(PAGE_SIZE - 1, min)));
    assert!(requires_manual_alignment(layout(PAGE_SIZE - 1, PAGE_SIZE)));
}

#[test]
fn manual_alignment_threshold_from_a_page() {
    assert!(!requires_manual_alignment(layout(PAGE_SIZE, PAGE_SIZE)));
    assert!(!requires_manual_alignment(layout(3 * PAGE_SIZE, 1024)));
    assert!(requires_manual_alignment(layout(PAGE_SIZE, 2 * PAGE_SIZE)));
}

#[test]
fn request_sizes() {
    let allocator = WdkAllocator;
    let direct = allocator.pool_request(layout(64, 8)).unwrap();
    assert_eq!(direct.number_of_bytes, 64);
    assert_eq!(direct.pool_flags, 0x40);
    assert_eq!(direct.tag, expected_rust_tag());
    let realigned = allocator.pool_request(layout(37, 256)).unwrap();
    assert_eq!(realigned.number_of_bytes, 293);
    let large = allocator.pool_request(layout(PAGE_SIZE, 2 * PAGE_SIZE)).unwrap();
    assert_eq!(large.number_of_bytes, 3 * PAGE_SIZE);
}

#[test]
fn realigned_address_is_next_multiple_above_pool() {
    let allocator = WdkAllocator;
    let word = std::mem::size_of::<usize>();
    let outcome = allocator.complete_allocation(layout(37, 256), 0x1_0010);
    assert_eq!(
        outcome,
        AllocOutcome::Realigned { address: 0x1_0100, slot: 0x1_0100 - word, pool: 0x1_0010 }
    );
    // A pool address already aligned still moves up by a whole alignment.
    let outcome = allocator.complete_allocation(layout(37, 256), 0x1_0000);
    assert_eq!(
        outcome,
        AllocOutcome::Realigned { address: 0x1_0100, slot: 0x1_0100 - word, pool: 0x1_0000 }
    );
}

#[test]
fn direct_and_null_outcomes() {
    let allocator = WdkAllocator;
    assert_eq!(allocator.complete_allocation(layout(64, 8), 0), AllocOutcome::Null);
    assert_eq!(allocator.complete_allocation(layout(37, 256), 0), AllocOutcome::Null);
    assert_eq!(
        allocator.complete_allocation(layout(64, 8), 0x2000),
        AllocOutcome::Pool { address: 0x2000 }
    );
}

#[test]
fn releases_pool_block_when_no_aligned_address_fits() {
    let allocator = WdkAllocator;
    let pool_pointer = usize::MAX - 0xF;
    assert_eq!(
        allocator.complete_allocation(layout(37, 256), pool_pointer),
        AllocOutcome::ReleaseAndFail { pool: pool_pointer }
    );
}

#[test]
fn free_targets() {
    let allocator = WdkAllocator;
    let word = std::mem::size_of::<usize>();
    assert_eq!(
        allocator.free_target(0x3000, layout(64, 8)),
        FreeTarget::Block { address: 0x3000 }
    );
    assert_eq!(
        allocator.free_target(0x3000, layout(37, 256)),
        FreeTarget::StoredIn { slot: 0x3000 - word }
    );
}

#[test]
fn freeing_a_realigned_block_finds_the_slot_it_was_given() {
    let allocator = WdkAllocator;
    let layout = layout(100, 1024);
    let pool_pointer = MOCK_POOL_BASE + expected_min_pool_alignment();
    match allocator.complete_allocation(layout, pool_pointer) {
        AllocOutcome::Realigned { address, slot, pool } => {
            assert_eq!(pool, pool_pointer);
            assert!(pool <= slot);
            assert_eq!(slot + std::mem::size_of::<usize>(), address);
            assert_eq!(address % 1024, 0);
            assert!(address + 100 <= pool_pointer + 100 + 1024);
            assert_eq!(allocator.free_target(address, layout), FreeTarget::StoredIn { slot });
        }
        other => panic!("unexpected outcome {:?}", other),
    }
}

#[test]
fn layout_rejects_invalid_parameters() {
    assert!(AllocLayout::from_size_align(8, 0).is_none());
    assert!(AllocLayout::from_size_align(8, 3).is_none());
    assert!(AllocLayout::from_size_align(8, 12).is_none());
    assert!(AllocLayout::from_size_align(isize::MAX as usize, 2).is_none());
    assert!(AllocLayout::from_size_align(usize::MAX, 1).is_none());
    let at_limit = AllocLayout::from_size_align(isize::MAX as usize - 1, 2).unwrap();
    assert_eq!(at_limit.size(), isize::MAX as usize - 1);
    assert_eq!(at_limit.align(), 2);
    let zero = AllocLayout::from_size_align(0, 1).unwrap();
    assert_eq!(zero.size(), 0);
    assert_eq!(zero.align(), 1);
}
