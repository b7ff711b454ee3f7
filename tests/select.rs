use hublot::render::memalloc::select::{count_ones, find_mem_type_index, CommonError, TypeSearch};
use hublot::render::memalloc::sizing::{heap_block_size, new_pools};
use hublot::render::memalloc::{
    AllocControl, AllocOptions, AllocatorOptions, Error, HeapOptions, HeapUsage, MemoryType, MemoryUsage,
    COHERENT, CPU_CACHED, CPU_VISIBLE, DEVICE_LOCAL,
};
use hublot::render::services::must_realloc;

const GIB: u64 = 1024 * 1024 * 1024;
const MIB: u64 = 1024 * 1024;

fn ty(properties: u16) -> MemoryType {
    MemoryType { properties, heap_index: 0 }
}

#[test]
fn most_preferred_bits_win() {
    let types = vec![ty(CPU_VISIBLE), ty(CPU_VISIBLE | COHERENT), ty(CPU_VISIBLE | COHERENT | CPU_CACHED)];
    let opts = AllocOptions::default().with_required_props(CPU_VISIBLE).with_preferred_props(COHERENT | CPU_CACHED);
    assert_eq!(find_mem_type_index(&types, 0b111, &opts), Some(2));
}

#[test]
fn ties_go_to_the_lowest_index() {
    let types = vec![ty(0), ty(DEVICE_LOCAL), ty(DEVICE_LOCAL)];
    let opts = AllocOptions::for_usage(MemoryUsage::GpuOnly);
    assert_eq!(find_mem_type_index(&types, 0b111, &opts), Some(1));
    assert_eq!(find_mem_type_index(&types, 0b101, &opts), Some(2));
    assert_eq!(find_mem_type_index(&types, 0b001, &opts), Some(0));
}

#[test]
fn required_bits_must_all_be_present() {
    let types = vec![ty(CPU_VISIBLE), ty(DEVICE_LOCAL | CPU_VISIBLE | COHERENT)];
    let opts = AllocOptions::for_usage(MemoryUsage::CpuOnly);
    assert_eq!(find_mem_type_index(&types, 0b11, &opts), Some(1));
    assert_eq!(find_mem_type_index(&types, 0b01, &opts), None);
    let opts = AllocOptions::for_usage(MemoryUsage::CpuToGpu);
    assert_eq!(find_mem_type_index(&types, 0b11, &opts), Some(1));
    let opts = AllocOptions::for_usage(MemoryUsage::GpuToCpu);
    assert_eq!(find_mem_type_index(&types, 0b11, &opts), Some(1));
}

#[test]
fn type_index_mask_narrows_the_allowed_types() {
    let types = vec![ty(DEVICE_LOCAL), ty(DEVICE_LOCAL), ty(0)];
    let opts = AllocOptions::default().with_preferred_props(DEVICE_LOCAL).with_type_index_mask(0b110);
    assert_eq!(find_mem_type_index(&types, 0b111, &opts), Some(1));
    assert_eq!(find_mem_type_index(&types, 0b101, &opts), Some(2));
    assert_eq!(find_mem_type_index(&types, 0b001, &opts), None);
}

#[test]
fn popcount_counts_bits() {
    assert_eq!(count_ones(0), 0);
    assert_eq!(count_ones(0b1011), 3);
    assert_eq!(count_ones(0xffff), 16);
}

#[test]
fn type_search_drops_failed_types() {
    let types = vec![ty(DEVICE_LOCAL), ty(DEVICE_LOCAL | COHERENT), ty(0)];
    let opts = AllocOptions::default().with_preferred_props(DEVICE_LOCAL | COHERENT);
    let mut search: TypeSearch<&str> = TypeSearch::new(0b111);
    assert_eq!(search.next_type(&types, &opts), Some(1));
    search.fail(1, CommonError::Error(Error::HeapExhausted));
    assert_eq!(search.allowed_mask(), 0b101);
    assert_eq!(search.next_type(&types, &opts), Some(0));
    search.fail(0, CommonError::Alloc("device out of memory"));
    assert_eq!(search.next_type(&types, &opts), Some(2));
    search.fail(2, CommonError::Error(Error::NoFreeBlock));
    assert_eq!(search.next_type(&types, &opts), None);
    assert!(matches!(search.into_error(), CommonError::Error(Error::NoFreeBlock)));
}

#[test]
fn search_without_failures_ends_in_exhaustion() {
    let search: TypeSearch<&str> = TypeSearch::new(0);
    assert!(matches!(search.into_error(), CommonError::Error(Error::HeapExhausted)));
}

#[test]
fn dedicated_allocator_overrides_control() {
    let mut aopts = AllocatorOptions::default();
    let opts = AllocOptions::default().with_control(AllocControl::Pool { no_alloc: true });
    assert_eq!(aopts.control_for(&opts), AllocControl::Pool { no_alloc: true });
    aopts.dedicated = true;
    assert_eq!(aopts.control_for(&opts), AllocControl::Dedicated);
}

#[test]
fn large_heap_gets_256_mib_blocks() {
    assert_eq!(heap_block_size(2 * GIB, 2 * GIB, 0), (2 * GIB, 256 * MIB));
    assert_eq!(heap_block_size(GIB, GIB, 0), (GIB, 256 * MIB));
}

#[test]
fn small_heap_gets_an_eighth() {
    assert_eq!(heap_block_size(512 * MIB, 512 * MIB, 0), (512 * MIB, 64 * MIB));
    assert_eq!(heap_block_size(1000, 1000, 0), (1000, 64));
}

#[test]
fn block_size_is_rounded_down_and_fitted() {
    assert_eq!(heap_block_size(GIB, GIB, 3000), (GIB, 2048));
    assert_eq!(heap_block_size(GIB, GIB, 4096), (GIB, 4096));
    assert_eq!(heap_block_size(2 * GIB, 100 * MIB, 0), (100 * MIB, 64 * MIB));
    assert_eq!(heap_block_size(2 * GIB, 3 * GIB, 0), (2 * GIB, 256 * MIB));
    assert_eq!(heap_block_size(2 * GIB, 0, 0), (0, 0));
    assert_eq!(heap_block_size(4, 4, 0), (4, 0));
}

#[test]
fn pools_follow_heap_options() {
    let heaps = vec![2 * GIB, 512 * MIB, 256 * MIB];
    let options = AllocatorOptions {
        dedicated: false,
        heap_options: vec![
            HeapOptions { usage: HeapUsage::Upto(GIB), block_size: 0 },
            HeapOptions { usage: HeapUsage::Forbid, block_size: 0 },
        ],
    };
    let pools: Vec<hublot::render::memalloc::pool::Pool<u32>> = new_pools(&heaps, &options);
    assert_eq!(pools.len(), 3);
    assert_eq!((pools[0].heap_idx(), pools[0].max_bytes(), pools[0].block_size()), (0, GIB, 256 * MIB));
    assert_eq!((pools[1].max_bytes(), pools[1].block_size()), (0, 0));
    assert_eq!((pools[2].max_bytes(), pools[2].block_size()), (256 * MIB, 32 * MIB));
    assert_eq!(HeapOptions::default(), HeapOptions { usage: HeapUsage::Whole, block_size: 0 });
}

#[test]
fn realloc_rule() {
    assert!(must_realloc(10, 11));
    assert!(!must_realloc(10, 10));
    assert!(!must_realloc(20, 10));
    assert!(must_realloc(21, 10));
    assert!(!must_realloc(u64::MAX, u64::MAX / 2 + 1));
    assert!(must_realloc(1, 0));
    assert!(!must_realloc(0, 0));
}
