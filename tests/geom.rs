use hublot::color::Color;
use hublot::geom::{Margins, Point, Rect, Size, Vec as GVec};

#[test]
fn accessors_read_their_fields() {
    let p = Point(3, 4);
    assert_eq!((p.x(), p.y()), (3, 4));
    let v = GVec(5, -6);
    assert_eq!((v.x(), v.y()), (5, -6));
    let s = Size(7, 8);
    assert_eq!((s.width(), s.height()), (7, 8));
}

#[test]
fn rect_constructors_agree() {
    let r = Rect::new(1, 2, 30, 40);
    assert_eq!(Rect::new_s(1, 2, Size(30, 40)), r);
    assert_eq!(Rect::new_p(Point(1, 2), 30, 40), r);
    assert_eq!(Rect::new_ps(Point(1, 2), Size(30, 40)), r);
    assert_eq!(r.point(), Point(1, 2));
    assert_eq!(r.size(), Size(30, 40));
    assert_eq!((r.left(), r.top(), r.right(), r.bottom()), (1, 2, 31, 42));
}

#[test]
fn margins_sum_by_axis() {
    let m = Margins(1, 2, 3, 4);
    assert_eq!((m.left(), m.top(), m.right(), m.bottom()), (1, 2, 3, 4));
    assert_eq!(m.horizontal(), 4);
    assert_eq!(m.vertical(), 6);
}

#[test]
fn color_channels_round_trip() {
    let c = Color::new(0x12, 0x34, 0x56, 0x78);
    assert_eq!((c.red(), c.green(), c.blue(), c.alpha()), (0x12, 0x34, 0x56, 0x78));
    assert_eq!(c.argb(), 0x78123456);
    assert_eq!(u32::from(c), 0x78123456);
    let d = Color::from(0xff5f9ea0u32);
    assert_eq!((d.red(), d.green(), d.blue(), d.alpha()), (0x5f, 0x9e, 0xa0, 0xff));
}
