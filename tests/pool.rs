use hublot::render::memalloc::pool::{AllocRes, Placement, Pool};
use hublot::render::memalloc::{AllocControl, Error};

const POOL: AllocControl = AllocControl::Pool { no_alloc: false };
const NO_ALLOC: AllocControl = AllocControl::Pool { no_alloc: true };

#[test]
fn empty_pool_asks_for_a_block_of_block_size() {
    let mut p: Pool<&'static str> = Pool::new(1, 1 << 20, 4096);
    assert_eq!(p.allocate(0, 100, 16, POOL), Ok(Placement::NewBlock { size: 4096, dedicated: false }));
    assert_eq!(p.allocate(0, 10000, 16, POOL), Ok(Placement::NewBlock { size: 10000, dedicated: false }));
    assert_eq!(p.block_count(), 0);
    assert_eq!(p.used_bytes(), 0);
}

#[test]
fn no_alloc_reports_no_free_block() {
    let mut p: Pool<u32> = Pool::new(0, 1 << 20, 4096);
    assert_eq!(p.allocate(0, 100, 16, NO_ALLOC), Err(Error::NoFreeBlock));
    let r = p.add_block(11, 0, 4096, false, 100, 16);
    assert_eq!(r, AllocRes { block: 0, start: 0, end: 112, heap_idx: 0 });
    assert_eq!(
        p.allocate(0, 100, 16, NO_ALLOC),
        Ok(Placement::Placed(AllocRes { block: 0, start: 112, end: 224, heap_idx: 0 }))
    );
    assert_eq!(p.allocate(0, 5000, 16, NO_ALLOC), Err(Error::NoFreeBlock));
}

#[test]
fn blocks_are_shared_by_type() {
    let mut p: Pool<u32> = Pool::new(3, 1 << 20, 4096);
    p.add_block(1, 0, 4096, false, 1000, 256);
    assert_eq!(p.allocate(1, 1000, 256, POOL), Ok(Placement::NewBlock { size: 4096, dedicated: false }));
    assert_eq!(
        p.allocate(0, 1000, 256, POOL),
        Ok(Placement::Placed(AllocRes { block: 0, start: 1024, end: 2048, heap_idx: 3 }))
    );
}

#[test]
fn used_bytes_stay_within_budget() {
    let mut p: Pool<u32> = Pool::new(0, 10000, 4096);
    p.add_block(1, 0, 4096, false, 4096, 1);
    p.add_block(2, 0, 4096, false, 4096, 1);
    assert_eq!(p.used_bytes(), 8192);
    assert_eq!(p.allocate(0, 100, 1, POOL), Err(Error::HeapExhausted));
    assert_eq!(p.allocate(0, 1808, 1, AllocControl::Dedicated), Ok(Placement::NewBlock { size: 1808, dedicated: true }));
    assert_eq!(p.allocate(0, 1809, 1, AllocControl::Dedicated), Err(Error::HeapExhausted));
    assert!(p.used_bytes() <= p.max_bytes());
}

#[test]
fn request_larger_than_its_aligned_block_is_exhaustion() {
    let mut p: Pool<u32> = Pool::new(0, 1 << 20, 0);
    assert_eq!(p.allocate(0, 1000, 256, AllocControl::Dedicated), Err(Error::HeapExhausted));
    assert_eq!(p.allocate(0, 1024, 256, AllocControl::Dedicated), Ok(Placement::NewBlock { size: 1024, dedicated: true }));
}

#[test]
fn dedicated_block_lives_for_one_allocation() {
    let mut p: Pool<u32> = Pool::new(0, 1 << 20, 4096);
    let step = p.allocate(0, 2048, 256, AllocControl::Dedicated).unwrap();
    assert_eq!(step, Placement::NewBlock { size: 2048, dedicated: true });
    let r = p.add_block(42, 0, 2048, true, 2048, 256);
    assert_eq!(p.block_count(), 1);
    assert_eq!(p.used_bytes(), 2048);
    assert_eq!(p.memory(r.block), Some(&42));
    assert_eq!(p.allocate(0, 16, 1, NO_ALLOC), Err(Error::NoFreeBlock));
    assert!(p.holds(r.block, 0));
    assert_eq!(p.free(r.block, r.start), Some(42));
    assert_eq!(p.block_count(), 0);
    assert_eq!(p.used_bytes(), 0);
}

#[test]
fn block_is_released_when_its_last_span_is_freed() {
    let mut p: Pool<u32> = Pool::new(0, 1 << 20, 4096);
    let a = p.add_block(5, 0, 4096, false, 100, 1);
    let b = match p.allocate(0, 100, 1, POOL) {
        Ok(Placement::Placed(b)) => b,
        other => panic!("unexpected {:?}", other),
    };
    assert_eq!(p.free(a.block, a.start), None);
    assert_eq!(p.block_count(), 1);
    assert!(!p.holds(a.block, a.start));
    assert_eq!(p.free(b.block, b.start), Some(5));
    assert_eq!(p.block_count(), 0);
    assert_eq!(p.used_bytes(), 0);
    assert_eq!(p.memory(a.block), None);
}
