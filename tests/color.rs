use hublot::color::{Color, CssName};

#[test]
fn names_map_to_their_colors() {
    assert_eq!(Color::from_name("cadetblue").map(|c| c.argb()), Some(0xff5f9ea0));
    assert_eq!(Color::from_name("black").map(|c| c.argb()), Some(0xff000000));
    assert_eq!(Color::from_name("yellowgreen").map(|c| c.argb()), Some(0xff9acd32));
    assert_eq!(
        Color::from_name("gray").map(|c| c.argb()),
        Color::from_name("grey").map(|c| c.argb())
    );
}

#[test]
fn unknown_names_are_none() {
    assert!(Color::from_name("").is_none());
    assert!(Color::from_name("CadetBlue").is_none());
    assert!(Color::from_name("cadetblu").is_none());
    assert!(Color::from_name("cadetbluee").is_none());
}

#[test]
fn css_names_convert_to_colors() {
    let c = Color::from(CssName::Chocolate);
    assert_eq!((c.red(), c.green(), c.blue(), c.alpha()), (0xd2, 0x69, 0x1e, 0xff));
    assert_eq!(Color::from(CssName::Transparent).argb(), 0);
    assert_eq!(CssName::White.argb(), 0xffffffff);
}
