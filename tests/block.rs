use hublot::render::memalloc::align::align_up;
use hublot::render::memalloc::block::{Block, Chunk};

const MIB: u64 = 1024 * 1024;

fn chunk(start: u64, end: u64, occupied: bool) -> Chunk {
    Chunk { start, end, occupied }
}

#[test]
fn align_up_rounds_to_multiple() {
    assert_eq!(align_up(0, 256), 0);
    assert_eq!(align_up(1, 256), 256);
    assert_eq!(align_up(256, 256), 256);
    assert_eq!(align_up(1000, 256), 1024);
    assert_eq!(align_up(4000, 256), 4096);
    assert_eq!(align_up(5, 1), 5);
}

#[test]
fn new_block_is_one_free_chunk() {
    let b = Block::new(7, (), 2, 4096, false);
    assert_eq!(b.id(), 7);
    assert_eq!(b.mem_type_index(), 2);
    assert_eq!(b.size(), 4096);
    assert!(!b.dedicated());
    assert_eq!(b.chunks().as_slice(), &[chunk(0, 4096, false)]);
}

#[test]
fn placement_is_aligned_and_inside() {
    let mut b = Block::new(0, (), 0, 10000, false);
    let (s, e) = b.allocate(100, 64).unwrap();
    assert_eq!((s, e), (0, 128));
    let (s, e) = b.allocate(10, 512).unwrap();
    assert_eq!((s, e), (512, 1024));
    assert_eq!(s % 512, 0);
    assert!(e - s >= 10);
    assert_eq!(
        b.chunks().as_slice(),
        &[chunk(0, 128, true), chunk(128, 512, false), chunk(512, 1024, true), chunk(1024, 10000, false)]
    );
}

#[test]
fn placement_fails_when_nothing_fits() {
    let mut b = Block::new(0, (), 0, 1000, false);
    assert_eq!(b.allocate(1001, 1), None);
    assert_eq!(b.allocate(1000, 1), Some((0, 1000)));
    assert_eq!(b.allocate(1, 1), None);
    assert_eq!(b.chunks().as_slice(), &[chunk(0, 1000, true)]);
}

#[test]
fn first_fit_takes_the_first_hole() {
    let mut b = Block::new(0, (), 0, 4096, false);
    assert_eq!(b.allocate(1024, 1024), Some((0, 1024)));
    assert_eq!(b.allocate(1024, 1024), Some((1024, 2048)));
    assert_eq!(b.allocate(1024, 1024), Some((2048, 3072)));
    assert!(!b.free(1024));
    assert_eq!(b.allocate(512, 256), Some((1024, 1536)));
}

#[test]
fn free_merges_both_neighbours() {
    let mut b = Block::new(0, (), 0, 3000, false);
    assert_eq!(b.allocate(1000, 1), Some((0, 1000)));
    assert_eq!(b.allocate(1000, 1), Some((1000, 2000)));
    assert_eq!(b.allocate(1000, 1), Some((2000, 3000)));
    assert!(!b.free(0));
    assert!(!b.free(2000));
    assert_eq!(
        b.chunks().as_slice(),
        &[chunk(0, 1000, false), chunk(1000, 2000, true), chunk(2000, 3000, false)]
    );
    assert!(b.free(1000));
    assert_eq!(b.chunks().as_slice(), &[chunk(0, 3000, false)]);
}

#[test]
fn freeing_everything_leaves_one_free_chunk() {
    let mut b = Block::new(0, (), 0, 64 * MIB, false);
    let mut starts = Vec::new();
    for size in [100u64, 3000, 17, 4096, 65536] {
        starts.push(b.allocate(size, 256).unwrap().0);
    }
    let order = [3usize, 0, 4, 2, 1];
    for (n, &k) in order.iter().enumerate() {
        let empty = b.free(starts[k]);
        assert_eq!(empty, n == order.len() - 1);
    }
    assert_eq!(b.chunks().as_slice(), &[chunk(0, 64 * MIB, false)]);
}

#[test]
fn reallocation_lands_at_the_same_offset() {
    let mut b = Block::new(0, (), 0, 1 << 20, false);
    b.allocate(300, 16).unwrap();
    b.allocate(5000, 4096).unwrap();
    let before = b.chunks().clone();
    let (s, e) = b.allocate(777, 128).unwrap();
    b.free(s);
    assert_eq!(b.chunks(), &before);
    assert_eq!(b.allocate(777, 128), Some((s, e)));
}

#[test]
fn buffers_share_a_block_without_overlap() {
    let mut b = Block::new(0, (), 0, 64 * MIB, false);
    let a = b.allocate(1000, 256).unwrap();
    let bb = b.allocate(4000, 256).unwrap();
    assert_eq!(a, (0, 1024));
    assert_eq!(bb, (1024, 1024 + 4096));
    assert!(a.1 <= bb.0);
    assert!(!b.free(a.0));
    let c = b.allocate(900, 256).unwrap();
    assert_eq!(c, (0, 1024));
    assert!(!b.free(c.0));
    let d = b.allocate(2000, 256).unwrap();
    assert_eq!(d, (5120, 5120 + 2048));
}

#[test]
fn occupied_at_sees_only_occupied_starts() {
    let mut b = Block::new(0, (), 0, 4096, false);
    b.allocate(100, 1).unwrap();
    assert!(b.occupied_at(0));
    assert!(!b.occupied_at(100));
    assert!(!b.occupied_at(50));
}
