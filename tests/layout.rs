use hublot::geom::{Margins, Size};
use hublot::render::rect::{round_indices, sharp_indices};
use hublot::ui::layout::{Gravity, Orientation, CENTER, CLIP, PULL_AFTER, PULL_BEFORE, TOP_LEFT};

#[test]
fn ortho_swaps_orientation() {
    assert_eq!(Orientation::Horizontal.ortho(), Orientation::Vertical);
    assert_eq!(Orientation::Vertical.ortho(), Orientation::Horizontal);
}

#[test]
fn margins_and_sizes_along_an_axis() {
    let m = Margins(1, 2, 3, 4);
    assert_eq!(m.along(Orientation::Horizontal), 4);
    assert_eq!(m.along(Orientation::Vertical), 6);
    assert_eq!(m.along_before(Orientation::Horizontal), 1);
    assert_eq!(m.along_before(Orientation::Vertical), 2);
    assert_eq!(m.along_after(Orientation::Horizontal), 3);
    assert_eq!(m.along_after(Orientation::Vertical), 4);
    let s = Size(10u32, 20u32);
    assert_eq!(s.along(Orientation::Horizontal), 10);
    assert_eq!(s.along(Orientation::Vertical), 20);
}

#[test]
fn gravity_splits_by_axis() {
    let g = Gravity { bits: (CENTER << 4) | PULL_BEFORE | PULL_AFTER | CLIP };
    assert_eq!(g.horizontal().bits, PULL_BEFORE | PULL_AFTER | CLIP);
    assert_eq!(g.vertical().bits, CENTER);
    assert_eq!(g.along(Orientation::Horizontal), g.horizontal());
    assert_eq!(g.along(Orientation::Vertical), g.vertical());
    assert_eq!(Gravity::default().bits, TOP_LEFT);
    assert_eq!(TOP_LEFT, 0x22);
}

#[test]
fn index_tables() {
    let sharp = sharp_indices();
    assert_eq!(sharp.len(), 24);
    assert_eq!(&sharp[..6], &[0, 1, 2, 2, 1, 3]);
    assert_eq!(&sharp[18..], &[12, 13, 14, 14, 13, 15]);
    let round = round_indices();
    assert_eq!(round.len(), 6 * 4 + 12 * 4);
    assert_eq!(&round[..6], &[0, 1, 2, 0, 2, 3]);
    assert_eq!(&round[24..36], &[16, 17, 20, 16, 20, 18, 20, 17, 21, 21, 17, 19]);
    assert_eq!(&round[60..], &[34, 35, 38, 34, 38, 36, 38, 35, 39, 39, 35, 37]);
}
