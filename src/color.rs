use vstd::prelude::*;

verus! {

/// The ARGB word of the given channels: alpha in the top byte, then red,
/// green and blue.
pub open spec fn argb(r: u8, g: u8, b: u8, a: u8) -> u32 {
    ((a as u32) << 24u32) | ((r as u32) << 16u32) | ((g as u32) << 8u32) | (b as u32)
}

pub open spec fn red_of(col: u32) -> u8 {
    ((col >> 16u32) & 0xffu32) as u8
}

pub open spec fn green_of(col: u32) -> u8 {
    ((col >> 8u32) & 0xffu32) as u8
}

pub open spec fn blue_of(col: u32) -> u8 {
    (col & 0xffu32) as u8
}

pub open spec fn alpha_of(col: u32) -> u8 {
    ((col >> 24u32) & 0xffu32) as u8
}

/// A color with 8 bits per channel, held as one ARGB word.
#[derive(Copy, Clone, Debug, PartialEq, Eq, Structural)]
pub struct Color {
    col: u32,
}

impl Color {
    pub closed spec fn value(&self) -> u32 {
        self.col
    }

    pub fn new(r: u8, g: u8, b: u8, a: u8) -> (c: Color)
        ensures
            c.value() == argb(r, g, b, a),
    {
        Color { col: ((a as u32) << 24u32) | ((r as u32) << 16u32) | ((g as u32) << 8u32) | (b as u32) }
    }

    pub fn red(&self) -> (r: u8)
        ensures
            r == red_of(self.value()),
    {
        ((self.col >> 16u32) & 0xffu32) as u8
    }

    pub fn green(&self) -> (r: u8)
        ensures
            r == green_of(self.value()),
    {
        ((self.col >> 8u32) & 0xffu32) as u8
    }

    pub fn blue(&self) -> (r: u8)
        ensures
            r == blue_of(self.value()),
    {
        (self.col & 0xffu32) as u8
    }

    pub fn alpha(&self) -> (r: u8)
        ensures
            r == alpha_of(self.value()),
    {
        ((self.col >> 24u32) & 0xffu32) as u8
    }

    /// The ARGB word.
    pub fn argb(&self) -> (r: u32)
        ensures
            r == self.value(),
    {
        self.col
    }
}

/// Each channel given to `Color::new` is read back unchanged.
pub proof fn lemma_channels_round_trip(r: u8, g: u8, b: u8, a: u8)
    ensures
        red_of(argb(r, g, b, a)) == r,
        green_of(argb(r, g, b, a)) == g,
        blue_of(argb(r, g, b, a)) == b,
        alpha_of(argb(r, g, b, a)) == a,
{
    let (r32, g32, b32, a32) = (r as u32, g as u32, b as u32, a as u32);
    assert(((((a32 << 24u32) | (r32 << 16u32) | (g32 << 8u32) | b32) >> 16u32) & 0xffu32) == r32) by (bit_vector)
        requires
            r32 < 256,
            g32 < 256,
            b32 < 256,
            a32 < 256,
    ;
    assert(((((a32 << 24u32) | (r32 << 16u32) | (g32 << 8u32) | b32) >> 8u32) & 0xffu32) == g32) by (bit_vector)
        requires
            r32 < 256,
            g32 < 256,
            b32 < 256,
            a32 < 256,
    ;
    assert((((a32 << 24u32) | (r32 << 16u32) | (g32 << 8u32) | b32) & 0xffu32) == b32) by (bit_vector)
        requires
            r32 < 256,
            g32 < 256,
            b32 < 256,
            a32 < 256,
    ;
    assert(((((a32 << 24u32) | (r32 << 16u32) | (g32 << 8u32) | b32) >> 24u32) & 0xffu32) == a32) by (bit_vector)
        requires
            r32 < 256,
            g32 < 256,
            b32 < 256,
            a32 < 256,
    ;
}

impl From<u32> for Color {
    fn from(val: u32) -> (c: Color)
        ensures
            c.value() == val,
    {
        Color { col: val }
    }
}

impl vstd::std_specs::convert::FromSpecImpl<u32> for Color {
    open spec fn obeys_from_spec() -> bool {
        true
    }

    closed spec fn from_spec(v: u32) -> Color {
        Color { col: v }
    }
}

impl From<Color> for u32 {
    fn from(val: Color) -> (r: u32)
        ensures
            r == val.value(),
    {
        val.col
    }
}

impl vstd::std_specs::convert::FromSpecImpl<Color> for u32 {
    open spec fn obeys_from_spec() -> bool {
        true
    }

    closed spec fn from_spec(v: Color) -> u32 {
        v.col
    }
}

/// The named colors of the CSS color module.
#[derive(Copy, Clone, Debug, PartialEq, Eq, Structural)]
pub enum CssName {
    Transparent,
    AliceBlue,
    AntiqueWhite,
    AquaMarine,
    Azure,
    Beige,
    Bisque,
    Black,
    BlanchedAlmond,
    Blue,
    BlueViolet,
    Brown,
    BurlyWood,
    CadetBlue,
    Chartreuse,
    Chocolate,
    Coral,
    CornFlowerBlue,
    CornSilk,
    Crimson,
    Cyan,
    DarkBlue,
    DarkCyan,
    DarkGoldenrod,
    DarkGreen,
    DarkGrey,
    DarkKhaki,
    DarkMagenta,
    DarkOliveGreen,
    DarkOrange,
    DarkOrchid,
    DarkRed,
    DarkSalmon,
    DarkSeaGreen,
    DarkSlateBlue,
    DarkSlateGrey,
    DarkTurquoise,
    DarkViolet,
    DeepPink,
    DeepSkyBlue,
    DimGrey,
    DodgerBlue,
    FireBrick,
    FloralWhite,
    ForestGreen,
    Gainsboro,
    GhostWhite,
    Gold,
    Goldenrod,
    Green,
    GreenYellow,
    Grey,
    HoneyDew,
    HotPink,
    IndianRed,
    Indigo,
    Ivory,
    Khaki,
    Lavender,
    LavenderBlush,
    LawnGreen,
    LemonChiffon,
    LightBlue,
    LightCoral,
    LightCyan,
    LightGoldenrodYellow,
    LightGreen,
    LightGrey,
    LightPink,
    LightSalmon,
    LightSeaGreen,
    LightSkyBlue,
    LightSlateGrey,
    LightSteelBlue,
    LightYellow,
    Lime,
    LimeGreen,
    Linen,
    Magenta,
    Maroon,
    MediumAquaMarine,
    MediumBlue,
    MediumOrchid,
    MediumPurple,
    MediumSeaGreen,
    MediumSlateBlue,
    MediumSpringGreen,
    MediumTurquoise,
    MediumVioletRed,
    MidnightBlue,
    MintCream,
    MistyRose,
    Moccasin,
    NavajoWhite,
    Navy,
    OldLace,
    Olive,
    OliveDrab,
    Orange,
    OrangeRed,
    Orchid,
    PaleGoldenrod,
    PaleGreen,
    PaleTurquoise,
    PaleVioletRed,
    PapayaWhip,
    PeachPuff,
    Peru,
    Pink,
    Plum,
    PowderBlue,
    Purple,
    Red,
    RosyBrown,
    RoyalBlue,
    SaddleBrown,
    Salmon,
    SandyBrown,
    SeaGreen,
    SeaShell,
    Sienna,
    Silver,
    SkyBlue,
    SlateBlue,
    SlateGrey,
    Snow,
    SpringGreen,
    SteelBlue,
    Tan,
    Teal,
    Thistle,
    Tomato,
    Turquoise,
    Violet,
    Wheat,
    White,
    WhiteSmoke,
    Yellow,
    YellowGreen,
}

/// The ARGB word of a named color.
pub open spec fn css_argb(name: CssName) -> u32 {
    match name {
        CssName::Transparent => 0x00000000u32,
        CssName::AliceBlue => 0xfff0f8ffu32,
        CssName::AntiqueWhite => 0xfffaebd7u32,
        CssName::AquaMarine => 0xff7fffd4u32,
        CssName::Azure => 0xfff0ffffu32,
        CssName::Beige => 0xfff5f5dcu32,
        CssName::Bisque => 0xffffe4c4u32,
        CssName::Black => 0xff000000u32,
        CssName::BlanchedAlmond => 0xffffebcdu32,
        CssName::Blue => 0xff0000ffu32,
        CssName::BlueViolet => 0xff8a2be2u32,
        CssName::Brown => 0xffa52a2au32,
        CssName::BurlyWood => 0xffdeb887u32,
        CssName::CadetBlue => 0xff5f9ea0u32,
        CssName::Chartreuse => 0xff7fff00u32,
        CssName::Chocolate => 0xffd2691eu32,
        CssName::Coral => 0xffff7f50u32,
        CssName::CornFlowerBlue => 0xff6495edu32,
        CssName::CornSilk => 0xfffff8dcu32,
        CssName::Crimson => 0xffdc143cu32,
        CssName::Cyan => 0xff00ffffu32,
        CssName::DarkBlue => 0xff00008bu32,
        CssName::DarkCyan => 0xff008b8bu32,
        CssName::DarkGoldenrod => 0xffb8860bu32,
        CssName::DarkGreen => 0xff006400u32,
        CssName::DarkGrey => 0xffa9a9a9u32,
        CssName::DarkKhaki => 0xffbdb76bu32,
        CssName::DarkMagenta => 0xff8b008bu32,
        CssName::DarkOliveGreen => 0xff556b2fu32,
        CssName::DarkOrange => 0xffff8c00u32,
        CssName::DarkOrchid => 0xff9932ccu32,
        CssName::DarkRed => 0xff8b0000u32,
        CssName::DarkSalmon => 0xffe9967au32,
        CssName::DarkSeaGreen => 0xff8fbc8fu32,
        CssName::DarkSlateBlue => 0xff483d8bu32,
        CssName::DarkSlateGrey => 0xff2f4f4fu32,
        CssName::DarkTurquoise => 0xff00ced1u32,
        CssName::DarkViolet => 0xff9400d3u32,
        CssName::DeepPink => 0xffff1493u32,
        CssName::DeepSkyBlue => 0xff00bfffu32,
        CssName::DimGrey => 0xff696969u32,
        CssName::DodgerBlue => 0xff1e90ffu32,
        CssName::FireBrick => 0xffb22222u32,
        CssName::FloralWhite => 0xfffffaf0u32,
        CssName::ForestGreen => 0xff228b22u32,
        CssName::Gainsboro => 0xffdcdcdcu32,
        CssName::GhostWhite => 0xfff8f8ffu32,
        CssName::Gold => 0xffffd700u32,
        CssName::Goldenrod => 0xffdaa520u32,
        CssName::Green => 0xff008000u32,
        CssName::GreenYellow => 0xffadff2fu32,
        CssName::Grey => 0xff808080u32,
        CssName::HoneyDew => 0xfff0fff0u32,
        CssName::HotPink => 0xffff69b4u32,
        CssName::IndianRed => 0xffcd5c5cu32,
        CssName::Indigo => 0xff4b0082u32,
        CssName::Ivory => 0xfffffff0u32,
        CssName::Khaki => 0xfff0e68cu32,
        CssName::Lavender => 0xffe6e6fau32,
        CssName::LavenderBlush => 0xfffff0f5u32,
        CssName::LawnGreen => 0xff7cfc00u32,
        CssName::LemonChiffon => 0xfffffacdu32,
        CssName::LightBlue => 0xffadd8e6u32,
        CssName::LightCoral => 0xfff08080u32,
        CssName::LightCyan => 0xffe0ffffu32,
        CssName::LightGoldenrodYellow => 0xfffafad2u32,
        CssName::LightGreen => 0xff90ee90u32,
        CssName::LightGrey => 0xffd3d3d3u32,
        CssName::LightPink => 0xffffb6c1u32,
        CssName::LightSalmon => 0xffffa07au32,
        CssName::LightSeaGreen => 0xff20b2aau32,
        CssName::LightSkyBlue => 0xff87cefau32,
        CssName::LightSlateGrey => 0xff778899u32,
        CssName::LightSteelBlue => 0xffb0c4deu32,
        CssName::LightYellow => 0xffffffe0u32,
        CssName::Lime => 0xff00ff00u32,
        CssName::LimeGreen => 0xff32cd32u32,
        CssName::Linen => 0xfffaf0e6u32,
        CssName::Magenta => 0xffff00ffu32,
        CssName::Maroon => 0xff800000u32,
        CssName::MediumAquaMarine => 0xff66cdaau32,
        CssName::MediumBlue => 0xff0000cdu32,
        CssName::MediumOrchid => 0xffba55d3u32,
        CssName::MediumPurple => 0xff9370dbu32,
        CssName::MediumSeaGreen => 0xff3cb371u32,
        CssName::MediumSlateBlue => 0xff7b68eeu32,
        CssName::MediumSpringGreen => 0xff00fa9au32,
        CssName::MediumTurquoise => 0xff48d1ccu32,
        CssName::MediumVioletRed => 0xffc71585u32,
        CssName::MidnightBlue => 0xff191970u32,
        CssName::MintCream => 0xfff5fffau32,
        CssName::MistyRose => 0xffffe4e1u32,
        CssName::Moccasin => 0xffffe4b5u32,
        CssName::NavajoWhite => 0xffffdeadu32,
        CssName::Navy => 0xff000080u32,
        CssName::OldLace => 0xfffdf5e6u32,
        CssName::Olive => 0xff808000u32,
        CssName::OliveDrab => 0xff6b8e23u32,
        CssName::Orange => 0xffffa500u32,
        CssName::OrangeRed => 0xffff4500u32,
        CssName::Orchid => 0xffda70d6u32,
        CssName::PaleGoldenrod => 0xffeee8aau32,
        CssName::PaleGreen => 0xff98fb98u32,
        CssName::PaleTurquoise => 0xffafeeeeu32,
        CssName::PaleVioletRed => 0xffdb7093u32,
        CssName::PapayaWhip => 0xffffefd5u32,
        CssName::PeachPuff => 0xffffdab9u32,
        CssName::Peru => 0xffcd853fu32,
        CssName::Pink => 0xffffc0cbu32,
        CssName::Plum => 0xffdda0ddu32,
        CssName::PowderBlue => 0xffb0e0e6u32,
        CssName::Purple => 0xff800080u32,
        CssName::Red => 0xffff0000u32,
        CssName::RosyBrown => 0xffbc8f8fu32,
        CssName::RoyalBlue => 0xff4169e1u32,
        CssName::SaddleBrown => 0xff8b4513u32,
        CssName::Salmon => 0xfffa8072u32,
        CssName::SandyBrown => 0xfff4a460u32,
        CssName::SeaGreen => 0xff2e8b57u32,
        CssName::SeaShell => 0xfffff5eeu32,
        CssName::Sienna => 0xffa0522du32,
        CssName::Silver => 0xffc0c0c0u32,
        CssName::SkyBlue => 0xff87ceebu32,
        CssName::SlateBlue => 0xff6a5acdu32,
        CssName::SlateGrey => 0xff708090u32,
        CssName::Snow => 0xfffffafau32,
        CssName::SpringGreen => 0xff00ff7fu32,
        CssName::SteelBlue => 0xff4682b4u32,
        CssName::Tan => 0xffd2b48cu32,
        CssName::Teal => 0xff008080u32,
        CssName::Thistle => 0xffd8bfd8u32,
        CssName::Tomato => 0xffff6347u32,
        CssName::Turquoise => 0xff40e0d0u32,
        CssName::Violet => 0xffee82eeu32,
        CssName::Wheat => 0xfff5deb3u32,
        CssName::White => 0xffffffffu32,
        CssName::WhiteSmoke => 0xfff5f5f5u32,
        CssName::Yellow => 0xffffff00u32,
        CssName::YellowGreen => 0xff9acd32u32,
    }
}

/// The named color that a lower-case CSS name stands for.
pub open spec fn css_lookup(name: Seq<char>) -> Option<CssName> {
    if name == "aliceblue"@ {
        Some(CssName::AliceBlue)
    } else if name == "antiquewhite"@ {
        Some(CssName::AntiqueWhite)
    } else if name == "aqua"@ {
        Some(CssName::Cyan)
    } else if name == "aquamarine"@ {
        Some(CssName::AquaMarine)
    } else if name == "azure"@ {
        Some(CssName::Azure)
    } else if name == "beige"@ {
        Some(CssName::Beige)
    } else if name == "bisque"@ {
        Some(CssName::Bisque)
    } else if name == "black"@ {
        Some(CssName::Black)
    } else if name == "blanchedalmond"@ {
        Some(CssName::BlanchedAlmond)
    } else if name == "blue"@ {
        Some(CssName::Blue)
    } else if name == "blueviolet"@ {
        Some(CssName::BlueViolet)
    } else if name == "brown"@ {
        Some(CssName::Brown)
    } else if name == "burlywood"@ {
        Some(CssName::BurlyWood)
    } else if name == "cadetblue"@ {
        Some(CssName::CadetBlue)
    } else if name == "chartreuse"@ {
        Some(CssName::Chartreuse)
    } else if name == "chocolate"@ {
        Some(CssName::Chocolate)
    } else if name == "coral"@ {
        Some(CssName::Coral)
    } else if name == "cornflowerblue"@ {
        Some(CssName::CornFlowerBlue)
    } else if name == "cornsilk"@ {
        Some(CssName::CornSilk)
    } else if name == "crimson"@ {
        Some(CssName::Crimson)
    } else if name == "cyan"@ {
        Some(CssName::Cyan)
    } else if name == "darkblue"@ {
        Some(CssName::DarkBlue)
    } else if name == "darkcyan"@ {
        Some(CssName::DarkCyan)
    } else if name == "darkgoldenrod"@ {
        Some(CssName::DarkGoldenrod)
    } else if name == "darkgray"@ {
        Some(CssName::DarkGrey)
    } else if name == "darkgreen"@ {
        Some(CssName::DarkGreen)
    } else if name == "darkgrey"@ {
        Some(CssName::DarkGrey)
    } else if name == "darkkhaki"@ {
        Some(CssName::DarkKhaki)
    } else if name == "darkmagenta"@ {
        Some(CssName::DarkMagenta)
    } else if name == "darkolivegreen"@ {
        Some(CssName::DarkOliveGreen)
    } else if name == "darkorange"@ {
        Some(CssName::DarkOrange)
    } else if name == "darkorchid"@ {
        Some(CssName::DarkOrchid)
    } else if name == "darkred"@ {
        Some(CssName::DarkRed)
    } else if name == "darksalmon"@ {
        Some(CssName::DarkSalmon)
    } else if name == "darkseagreen"@ {
        Some(CssName::DarkSeaGreen)
    } else if name == "darkslateblue"@ {
        Some(CssName::DarkSlateBlue)
    } else if name == "darkslategray"@ {
        Some(CssName::DarkSlateGrey)
    } else if name == "darkslategrey"@ {
        Some(CssName::DarkSlateGrey)
    } else if name == "darkturquoise"@ {
        Some(CssName::DarkTurquoise)
    } else if name == "darkviolet"@ {
        Some(CssName::DarkViolet)
    } else if name == "deeppink"@ {
        Some(CssName::DeepPink)
    } else if name == "deepskyblue"@ {
        Some(CssName::DeepSkyBlue)
    } else if name == "dimgray"@ {
        Some(CssName::DimGrey)
    } else if name == "dimgrey"@ {
        Some(CssName::DimGrey)
    } else if name == "dodgerblue"@ {
        Some(CssName::DodgerBlue)
    } else if name == "firebrick"@ {
        Some(CssName::FireBrick)
    } else if name == "floralwhite"@ {
        Some(CssName::FloralWhite)
    } else if name == "forestgreen"@ {
        Some(CssName::ForestGreen)
    } else if name == "fuchsia"@ {
        Some(CssName::Magenta)
    } else if name == "gainsboro"@ {
        Some(CssName::Gainsboro)
    } else if name == "ghostwhite"@ {
        Some(CssName::GhostWhite)
    } else if name == "gold"@ {
        Some(CssName::Gold)
    } else if name == "goldenrod"@ {
        Some(CssName::Goldenrod)
    } else if name == "green"@ {
        Some(CssName::Green)
    } else if name == "greenyellow"@ {
        Some(CssName::GreenYellow)
    } else if name == "gray"@ {
        Some(CssName::Grey)
    } else if name == "grey"@ {
        Some(CssName::Grey)
    } else if name == "honeydew"@ {
        Some(CssName::HoneyDew)
    } else if name == "hotpink"@ {
        Some(CssName::HotPink)
    } else if name == "indianred"@ {
        Some(CssName::IndianRed)
    } else if name == "indigo"@ {
        Some(CssName::Indigo)
    } else if name == "ivory"@ {
        Some(CssName::Ivory)
    } else if name == "khaki"@ {
        Some(CssName::Khaki)
    } else if name == "lavender"@ {
        Some(CssName::Lavender)
    } else if name == "lavenderblush"@ {
        Some(CssName::LavenderBlush)
    } else if name == "lawngreen"@ {
        Some(CssName::LawnGreen)
    } else if name == "lemonchiffon"@ {
        Some(CssName::LemonChiffon)
    } else if name == "lightblue"@ {
        Some(CssName::LightBlue)
    } else if name == "lightcoral"@ {
        Some(CssName::LightCoral)
    } else if name == "lightcyan"@ {
        Some(CssName::LightCyan)
    } else if name == "lightgoldenrodyellow"@ {
        Some(CssName::LightGoldenrodYellow)
    } else if name == "lightgray"@ {
        Some(CssName::LightGrey)
    } else if name == "lightgreen"@ {
        Some(CssName::LightGreen)
    } else if name == "lightgrey"@ {
        Some(CssName::LightGrey)
    } else if name == "lightpink"@ {
        Some(CssName::LightPink)
    } else if name == "lightsalmon"@ {
        Some(CssName::LightSalmon)
    } else if name == "lightseagreen"@ {
        Some(CssName::LightSeaGreen)
    } else if name == "lightskyblue"@ {
        Some(CssName::LightSkyBlue)
    } else if name == "lightslategray"@ {
        Some(CssName::LightSlateGrey)
    } else if name == "lightslategrey"@ {
        Some(CssName::LightSlateGrey)
    } else if name == "lightsteelblue"@ {
        Some(CssName::LightSteelBlue)
    } else if name == "lightyellow"@ {
        Some(CssName::LightYellow)
    } else if name == "lime"@ {
        Some(CssName::Lime)
    } else if name == "limegreen"@ {
        Some(CssName::LimeGreen)
    } else if name == "linen"@ {
        Some(CssName::Linen)
    } else if name == "magenta"@ {
        Some(CssName::Magenta)
    } else if name == "maroon"@ {
        Some(CssName::Maroon)
    } else if name == "mediumaquamarine"@ {
        Some(CssName::MediumAquaMarine)
    } else if name == "mediumblue"@ {
        Some(CssName::MediumBlue)
    } else if name == "mediumorchid"@ {
        Some(CssName::MediumOrchid)
    } else if name == "mediumpurple"@ {
        Some(CssName::MediumPurple)
    } else if name == "mediumseagreen"@ {
        Some(CssName::MediumSeaGreen)
    } else if name == "mediumslateblue"@ {
        Some(CssName::MediumSlateBlue)
    } else if name == "mediumspringgreen"@ {
        Some(CssName::MediumSpringGreen)
    } else if name == "mediumturquoise"@ {
        Some(CssName::MediumTurquoise)
    } else if name == "mediumvioletred"@ {
        Some(CssName::MediumVioletRed)
    } else if name == "midnightblue"@ {
        Some(CssName::MidnightBlue)
    } else if name == "mintcream"@ {
        Some(CssName::MintCream)
    } else if name == "mistyrose"@ {
        Some(CssName::MistyRose)
    } else if name == "moccasin"@ {
        Some(CssName::Moccasin)
    } else if name == "navajowhite"@ {
        Some(CssName::NavajoWhite)
    } else if name == "navy"@ {
        Some(CssName::Navy)
    } else if name == "oldlace"@ {
        Some(CssName::OldLace)
    } else if name == "olive"@ {
        Some(CssName::Olive)
    } else if name == "olivedrab"@ {
        Some(CssName::OliveDrab)
    } else if name == "orange"@ {
        Some(CssName::Orange)
    } else if name == "orangered"@ {
        Some(CssName::OrangeRed)
    } else if name == "orchid"@ {
        Some(CssName::Orchid)
    } else if name == "palegoldenrod"@ {
        Some(CssName::PaleGoldenrod)
    } else if name == "palegreen"@ {
        Some(CssName::PaleGreen)
    } else if name == "paleturquoise"@ {
        Some(CssName::PaleTurquoise)
    } else if name == "palevioletred"@ {
        Some(CssName::PaleVioletRed)
    } else if name == "papayawhip"@ {
        Some(CssName::PapayaWhip)
    } else if name == "peachpuff"@ {
        Some(CssName::PeachPuff)
    } else if name == "peru"@ {
        Some(CssName::Peru)
    } else if name == "pink"@ {
        Some(CssName::Pink)
    } else if name == "plum"@ {
        Some(CssName::Plum)
    } else if name == "powderblue"@ {
        Some(CssName::PowderBlue)
    } else if name == "purple"@ {
        Some(CssName::Purple)
    } else if name == "red"@ {
        Some(CssName::Red)
    } else if name == "rosybrown"@ {
        Some(CssName::RosyBrown)
    } else if name == "royalblue"@ {
        Some(CssName::RoyalBlue)
    } else if name == "saddlebrown"@ {
        Some(CssName::SaddleBrown)
    } else if name == "salmon"@ {
        Some(CssName::Salmon)
    } else if name == "sandybrown"@ {
        Some(CssName::SandyBrown)
    } else if name == "seagreen"@ {
        Some(CssName::SeaGreen)
    } else if name == "seashell"@ {
        Some(CssName::SeaShell)
    } else if name == "sienna"@ {
        Some(CssName::Sienna)
    } else if name == "silver"@ {
        Some(CssName::Silver)
    } else if name == "skyblue"@ {
        Some(CssName::SkyBlue)
    } else if name == "slateblue"@ {
        Some(CssName::SlateBlue)
    } else if name == "slategray"@ {
        Some(CssName::SlateGrey)
    } else if name == "slategrey"@ {
        Some(CssName::SlateGrey)
    } else if name == "snow"@ {
        Some(CssName::Snow)
    } else if name == "springgreen"@ {
        Some(CssName::SpringGreen)
    } else if name == "steelblue"@ {
        Some(CssName::SteelBlue)
    } else if name == "tan"@ {
        Some(CssName::Tan)
    } else if name == "teal"@ {
        Some(CssName::Teal)
    } else if name == "thistle"@ {
        Some(CssName::Thistle)
    } else if name == "tomato"@ {
        Some(CssName::Tomato)
    } else if name == "turquoise"@ {
        Some(CssName::Turquoise)
    } else if name == "violet"@ {
        Some(CssName::Violet)
    } else if name == "wheat"@ {
        Some(CssName::Wheat)
    } else if name == "white"@ {
        Some(CssName::White)
    } else if name == "whitesmoke"@ {
        Some(CssName::WhiteSmoke)
    } else if name == "yellow"@ {
        Some(CssName::Yellow)
    } else if name == "yellowgreen"@ {
        Some(CssName::YellowGreen)
    } else {
        None
    }
}

impl CssName {
    /// The ARGB word of this color.
    pub fn argb(self) -> (r: u32)
        ensures
            r == css_argb(self),
    {
        match self {
            CssName::Transparent => 0x00000000u32,
            CssName::AliceBlue => 0xfff0f8ffu32,
            CssName::AntiqueWhite => 0xfffaebd7u32,
            CssName::AquaMarine => 0xff7fffd4u32,
            CssName::Azure => 0xfff0ffffu32,
            CssName::Beige => 0xfff5f5dcu32,
            CssName::Bisque => 0xffffe4c4u32,
            CssName::Black => 0xff000000u32,
            CssName::BlanchedAlmond => 0xffffebcdu32,
            CssName::Blue => 0xff0000ffu32,
            CssName::BlueViolet => 0xff8a2be2u32,
            CssName::Brown => 0xffa52a2au32,
            CssName::BurlyWood => 0xffdeb887u32,
            CssName::CadetBlue => 0xff5f9ea0u32,
            CssName::Chartreuse => 0xff7fff00u32,
            CssName::Chocolate => 0xffd2691eu32,
            CssName::Coral => 0xffff7f50u32,
            CssName::CornFlowerBlue => 0xff6495edu32,
            CssName::CornSilk => 0xfffff8dcu32,
            CssName::Crimson => 0xffdc143cu32,
            CssName::Cyan => 0xff00ffffu32,
            CssName::DarkBlue => 0xff00008bu32,
            CssName::DarkCyan => 0xff008b8bu32,
            CssName::DarkGoldenrod => 0xffb8860bu32,
            CssName::DarkGreen => 0xff006400u32,
            CssName::DarkGrey => 0xffa9a9a9u32,
            CssName::DarkKhaki => 0xffbdb76bu32,
            CssName::DarkMagenta => 0xff8b008bu32,
            CssName::DarkOliveGreen => 0xff556b2fu32,
            CssName::DarkOrange => 0xffff8c00u32,
            CssName::DarkOrchid => 0xff9932ccu32,
            CssName::DarkRed => 0xff8b0000u32,
            CssName::DarkSalmon => 0xffe9967au32,
            CssName::DarkSeaGreen => 0xff8fbc8fu32,
            CssName::DarkSlateBlue => 0xff483d8bu32,
            CssName::DarkSlateGrey => 0xff2f4f4fu32,
            CssName::DarkTurquoise => 0xff00ced1u32,
            CssName::DarkViolet => 0xff9400d3u32,
            CssName::DeepPink => 0xffff1493u32,
            CssName::DeepSkyBlue => 0xff00bfffu32,
            CssName::DimGrey => 0xff696969u32,
            CssName::DodgerBlue => 0xff1e90ffu32,
            CssName::FireBrick => 0xffb22222u32,
            CssName::FloralWhite => 0xfffffaf0u32,
            CssName::ForestGreen => 0xff228b22u32,
            CssName::Gainsboro => 0xffdcdcdcu32,
            CssName::GhostWhite => 0xfff8f8ffu32,
            CssName::Gold => 0xffffd700u32,
            CssName::Goldenrod => 0xffdaa520u32,
            CssName::Green => 0xff008000u32,
            CssName::GreenYellow => 0xffadff2fu32,
            CssName::Grey => 0xff808080u32,
            CssName::HoneyDew => 0xfff0fff0u32,
            CssName::HotPink => 0xffff69b4u32,
            CssName::IndianRed => 0xffcd5c5cu32,
            CssName::Indigo => 0xff4b0082u32,
            CssName::Ivory => 0xfffffff0u32,
            CssName::Khaki => 0xfff0e68cu32,
            CssName::Lavender => 0xffe6e6fau32,
            CssName::LavenderBlush => 0xfffff0f5u32,
            CssName::LawnGreen => 0xff7cfc00u32,
            CssName::LemonChiffon => 0xfffffacdu32,
            CssName::LightBlue => 0xffadd8e6u32,
            CssName::LightCoral => 0xfff08080u32,
            CssName::LightCyan => 0xffe0ffffu32,
            CssName::LightGoldenrodYellow => 0xfffafad2u32,
            CssName::LightGreen => 0xff90ee90u32,
            CssName::LightGrey => 0xffd3d3d3u32,
            CssName::LightPink => 0xffffb6c1u32,
            CssName::LightSalmon => 0xffffa07au32,
            CssName::LightSeaGreen => 0xff20b2aau32,
            CssName::LightSkyBlue => 0xff87cefau32,
            CssName::LightSlateGrey => 0xff778899u32,
            CssName::LightSteelBlue => 0xffb0c4deu32,
            CssName::LightYellow => 0xffffffe0u32,
            CssName::Lime => 0xff00ff00u32,
            CssName::LimeGreen => 0xff32cd32u32,
            CssName::Linen => 0xfffaf0e6u32,
            CssName::Magenta => 0xffff00ffu32,
            CssName::Maroon => 0xff800000u32,
            CssName::MediumAquaMarine => 0xff66cdaau32,
            CssName::MediumBlue => 0xff0000cdu32,
            CssName::MediumOrchid => 0xffba55d3u32,
            CssName::MediumPurple => 0xff9370dbu32,
            CssName::MediumSeaGreen => 0xff3cb371u32,
            CssName::MediumSlateBlue => 0xff7b68eeu32,
            CssName::MediumSpringGreen => 0xff00fa9au32,
            CssName::MediumTurquoise => 0xff48d1ccu32,
            CssName::MediumVioletRed => 0xffc71585u32,
            CssName::MidnightBlue => 0xff191970u32,
            CssName::MintCream => 0xfff5fffau32,
            CssName::MistyRose => 0xffffe4e1u32,
            CssName::Moccasin => 0xffffe4b5u32,
            CssName::NavajoWhite => 0xffffdeadu32,
            CssName::Navy => 0xff000080u32,
            CssName::OldLace => 0xfffdf5e6u32,
            CssName::Olive => 0xff808000u32,
            CssName::OliveDrab => 0xff6b8e23u32,
            CssName::Orange => 0xffffa500u32,
            CssName::OrangeRed => 0xffff4500u32,
            CssName::Orchid => 0xffda70d6u32,
            CssName::PaleGoldenrod => 0xffeee8aau32,
            CssName::PaleGreen => 0xff98fb98u32,
            CssName::PaleTurquoise => 0xffafeeeeu32,
            CssName::PaleVioletRed => 0xffdb7093u32,
            CssName::PapayaWhip => 0xffffefd5u32,
            CssName::PeachPuff => 0xffffdab9u32,
            CssName::Peru => 0xffcd853fu32,
            CssName::Pink => 0xffffc0cbu32,
            CssName::Plum => 0xffdda0ddu32,
            CssName::PowderBlue => 0xffb0e0e6u32,
            CssName::Purple => 0xff800080u32,
            CssName::Red => 0xffff0000u32,
            CssName::RosyBrown => 0xffbc8f8fu32,
            CssName::RoyalBlue => 0xff4169e1u32,
            CssName::SaddleBrown => 0xff8b4513u32,
            CssName::Salmon => 0xfffa8072u32,
            CssName::SandyBrown => 0xfff4a460u32,
            CssName::SeaGreen => 0xff2e8b57u32,
            CssName::SeaShell => 0xfffff5eeu32,
            CssName::Sienna => 0xffa0522du32,
            CssName::Silver => 0xffc0c0c0u32,
            CssName::SkyBlue => 0xff87ceebu32,
            CssName::SlateBlue => 0xff6a5acdu32,
            CssName::SlateGrey => 0xff708090u32,
            CssName::Snow => 0xfffffafau32,
            CssName::SpringGreen => 0xff00ff7fu32,
            CssName::SteelBlue => 0xff4682b4u32,
            CssName::Tan => 0xffd2b48cu32,
            CssName::Teal => 0xff008080u32,
            CssName::Thistle => 0xffd8bfd8u32,
            CssName::Tomato => 0xffff6347u32,
            CssName::Turquoise => 0xff40e0d0u32,
            CssName::Violet => 0xffee82eeu32,
            CssName::Wheat => 0xfff5deb3u32,
            CssName::White => 0xffffffffu32,
            CssName::WhiteSmoke => 0xfff5f5f5u32,
            CssName::Yellow => 0xffffff00u32,
            CssName::YellowGreen => 0xff9acd32u32,
        }
    }
}

impl From<CssName> for Color {
    fn from(val: CssName) -> (c: Color)
        ensures
            c.value() == css_argb(val),
    {
        Color { col: val.argb() }
    }
}

impl vstd::std_specs::convert::FromSpecImpl<CssName> for Color {
    open spec fn obeys_from_spec() -> bool {
        true
    }

    closed spec fn from_spec(v: CssName) -> Color {
        Color { col: css_argb(v) }
    }
}

/// Whether two strings hold the same characters.
pub fn str_eq(a: &str, b: &str) -> (r: bool)
    ensures
        r == (a@ == b@),
{
    let n = a.unicode_len();
    if n != b.unicode_len() {
        return false;
    }
    let mut i: usize = 0;
    while i < n
        invariant
            n == a@.len(),
            n == b@.len(),
            i <= n,
            forall|j: int| 0 <= j < i ==> a@[j] == b@[j],
        decreases n - i,
    {
        if a.get_char(i) != b.get_char(i) {
            return false;
        }
        i += 1;
    }
    proof {
        assert(a@ =~= b@);
    }
    true
}

impl Color {
    /// The named color of a lower-case CSS name, if there is one.
    pub fn from_name(name: &str) -> (r: Option<Color>)
        ensures
            r matches Some(c) ==> css_lookup(name@) matches Some(n) && c.value() == css_argb(n),
            r is None <==> css_lookup(name@) is None,
    {
        let found = 
        if str_eq(name, "aliceblue") {
            Some(CssName::AliceBlue)
        } else if str_eq(name, "antiquewhite") {
            Some(CssName::AntiqueWhite)
        } else if str_eq(name, "aqua") {
            Some(CssName::Cyan)
        } else if str_eq(name, "aquamarine") {
            Some(CssName::AquaMarine)
        } else if str_eq(name, "azure") {
            Some(CssName::Azure)
        } else if str_eq(name, "beige") {
            Some(CssName::Beige)
        } else if str_eq(name, "bisque") {
            Some(CssName::Bisque)
        } else if str_eq(name, "black") {
            Some(CssName::Black)
        } else if str_eq(name, "blanchedalmond") {
            Some(CssName::BlanchedAlmond)
        } else if str_eq(name, "blue") {
            Some(CssName::Blue)
        } else if str_eq(name, "blueviolet") {
            Some(CssName::BlueViolet)
        } else if str_eq(name, "brown") {
            Some(CssName::Brown)
        } else if str_eq(name, "burlywood") {
            Some(CssName::BurlyWood)
        } else if str_eq(name, "cadetblue") {
            Some(CssName::CadetBlue)
        } else if str_eq(name, "chartreuse") {
            Some(CssName::Chartreuse)
        } else if str_eq(name, "chocolate") {
            Some(CssName::Chocolate)
        } else if str_eq(name, "coral") {
            Some(CssName::Coral)
        } else if str_eq(name, "cornflowerblue") {
            Some(CssName::CornFlowerBlue)
        } else if str_eq(name, "cornsilk") {
            Some(CssName::CornSilk)
        } else if str_eq(name, "crimson") {
            Some(CssName::Crimson)
        } else if str_eq(name, "cyan") {
            Some(CssName::Cyan)
        } else if str_eq(name, "darkblue") {
            Some(CssName::DarkBlue)
        } else if str_eq(name, "darkcyan") {
            Some(CssName::DarkCyan)
        } else if str_eq(name, "darkgoldenrod") {
            Some(CssName::DarkGoldenrod)
        } else if str_eq(name, "darkgray") {
            Some(CssName::DarkGrey)
        } else if str_eq(name, "darkgreen") {
            Some(CssName::DarkGreen)
        } else if str_eq(name, "darkgrey") {
            Some(CssName::DarkGrey)
        } else if str_eq(name, "darkkhaki") {
            Some(CssName::DarkKhaki)
        } else if str_eq(name, "darkmagenta") {
            Some(CssName::DarkMagenta)
        } else if str_eq(name, "darkolivegreen") {
            Some(CssName::DarkOliveGreen)
        } else if str_eq(name, "darkorange") {
            Some(CssName::DarkOrange)
        } else if str_eq(name, "darkorchid") {
            Some(CssName::DarkOrchid)
        } else if str_eq(name, "darkred") {
            Some(CssName::DarkRed)
        } else if str_eq(name, "darksalmon") {
            Some(CssName::DarkSalmon)
        } else if str_eq(name, "darkseagreen") {
            Some(CssName::DarkSeaGreen)
        } else if str_eq(name, "darkslateblue") {
            Some(CssName::DarkSlateBlue)
        } else if str_eq(name, "darkslategray") {
            Some(CssName::DarkSlateGrey)
        } else if str_eq(name, "darkslategrey") {
            Some(CssName::DarkSlateGrey)
        } else if str_eq(name, "darkturquoise") {
            Some(CssName::DarkTurquoise)
        } else if str_eq(name, "darkviolet") {
            Some(CssName::DarkViolet)
        } else if str_eq(name, "deeppink") {
            Some(CssName::DeepPink)
        } else if str_eq(name, "deepskyblue") {
            Some(CssName::DeepSkyBlue)
        } else if str_eq(name, "dimgray") {
            Some(CssName::DimGrey)
        } else if str_eq(name, "dimgrey") {
            Some(CssName::DimGrey)
        } else if str_eq(name, "dodgerblue") {
            Some(CssName::DodgerBlue)
        } else if str_eq(name, "firebrick") {
            Some(CssName::FireBrick)
        } else if str_eq(name, "floralwhite") {
            Some(CssName::FloralWhite)
        } else if str_eq(name, "forestgreen") {
            Some(CssName::ForestGreen)
        } else if str_eq(name, "fuchsia") {
            Some(CssName::Magenta)
        } else if str_eq(name, "gainsboro") {
            Some(CssName::Gainsboro)
        } else if str_eq(name, "ghostwhite") {
            Some(CssName::GhostWhite)
        } else if str_eq(name, "gold") {
            Some(CssName::Gold)
        } else if str_eq(name, "goldenrod") {
            Some(CssName::Goldenrod)
        } else if str_eq(name, "green") {
            Some(CssName::Green)
        } else if str_eq(name, "greenyellow") {
            Some(CssName::GreenYellow)
        } else if str_eq(name, "gray") {
            Some(CssName::Grey)
        } else if str_eq(name, "grey") {
            Some(CssName::Grey)
        } else if str_eq(name, "honeydew") {
            Some(CssName::HoneyDew)
        } else if str_eq(name, "hotpink") {
            Some(CssName::HotPink)
        } else if str_eq(name, "indianred") {
            Some(CssName::IndianRed)
        } else if str_eq(name, "indigo") {
            Some(CssName::Indigo)
        } else if str_eq(name, "ivory") {
            Some(CssName::Ivory)
        } else if str_eq(name, "khaki") {
            Some(CssName::Khaki)
        } else if str_eq(name, "lavender") {
            Some(CssName::Lavender)
        } else if str_eq(name, "lavenderblush") {
            Some(CssName::LavenderBlush)
        } else if str_eq(name, "lawngreen") {
            Some(CssName::LawnGreen)
        } else if str_eq(name, "lemonchiffon") {
            Some(CssName::LemonChiffon)
        } else if str_eq(name, "lightblue") {
            Some(CssName::LightBlue)
        } else if str_eq(name, "lightcoral") {
            Some(CssName::LightCoral)
        } else if str_eq(name, "lightcyan") {
            Some(CssName::LightCyan)
        } else if str_eq(name, "lightgoldenrodyellow") {
            Some(CssName::LightGoldenrodYellow)
        } else if str_eq(name, "lightgray") {
            Some(CssName::LightGrey)
        } else if str_eq(name, "lightgreen") {
            Some(CssName::LightGreen)
        } else if str_eq(name, "lightgrey") {
            Some(CssName::LightGrey)
        } else if str_eq(name, "lightpink") {
            Some(CssName::LightPink)
        } else if str_eq(name, "lightsalmon") {
            Some(CssName::LightSalmon)
        } else if str_eq(name, "lightseagreen") {
            Some(CssName::LightSeaGreen)
        } else if str_eq(name, "lightskyblue") {
            Some(CssName::LightSkyBlue)
        } else if str_eq(name, "lightslategray") {
            Some(CssName::LightSlateGrey)
        } else if str_eq(name, "lightslategrey") {
            Some(CssName::LightSlateGrey)
        } else if str_eq(name, "lightsteelblue") {
            Some(CssName::LightSteelBlue)
        } else if str_eq(name, "lightyellow") {
            Some(CssName::LightYellow)
        } else if str_eq(name, "lime") {
            Some(CssName::Lime)
        } else if str_eq(name, "limegreen") {
            Some(CssName::LimeGreen)
        } else if str_eq(name, "linen") {
            Some(CssName::Linen)
        } else if str_eq(name, "magenta") {
            Some(CssName::Magenta)
        } else if str_eq(name, "maroon") {
            Some(CssName::Maroon)
        } else if str_eq(name, "mediumaquamarine") {
            Some(CssName::MediumAquaMarine)
        } else if str_eq(name, "mediumblue") {
            Some(CssName::MediumBlue)
        } else if str_eq(name, "mediumorchid") {
            Some(CssName::MediumOrchid)
        } else if str_eq(name, "mediumpurple") {
            Some(CssName::MediumPurple)
        } else if str_eq(name, "mediumseagreen") {
            Some(CssName::MediumSeaGreen)
        } else if str_eq(name, "mediumslateblue") {
            Some(CssName::MediumSlateBlue)
        } else if str_eq(name, "mediumspringgreen") {
            Some(CssName::MediumSpringGreen)
        } else if str_eq(name, "mediumturquoise") {
            Some(CssName::MediumTurquoise)
        } else if str_eq(name, "mediumvioletred") {
            Some(CssName::MediumVioletRed)
        } else if str_eq(name, "midnightblue") {
            Some(CssName::MidnightBlue)
        } else if str_eq(name, "mintcream") {
            Some(CssName::MintCream)
        } else if str_eq(name, "mistyrose") {
            Some(CssName::MistyRose)
        } else if str_eq(name, "moccasin") {
            Some(CssName::Moccasin)
        } else if str_eq(name, "navajowhite") {
            Some(CssName::NavajoWhite)
        } else if str_eq(name, "navy") {
            Some(CssName::Navy)
        } else if str_eq(name, "oldlace") {
            Some(CssName::OldLace)
        } else if str_eq(name, "olive") {
            Some(CssName::Olive)
        } else if str_eq(name, "olivedrab") {
            Some(CssName::OliveDrab)
        } else if str_eq(name, "orange") {
            Some(CssName::Orange)
        } else if str_eq(name, "orangered") {
            Some(CssName::OrangeRed)
        } else if str_eq(name, "orchid") {
            Some(CssName::Orchid)
        } else if str_eq(name, "palegoldenrod") {
            Some(CssName::PaleGoldenrod)
        } else if str_eq(name, "palegreen") {
            Some(CssName::PaleGreen)
        } else if str_eq(name, "paleturquoise") {
            Some(CssName::PaleTurquoise)
        } else if str_eq(name, "palevioletred") {
            Some(CssName::PaleVioletRed)
        } else if str_eq(name, "papayawhip") {
            Some(CssName::PapayaWhip)
        } else if str_eq(name, "peachpuff") {
            Some(CssName::PeachPuff)
        } else if str_eq(name, "peru") {
            Some(CssName::Peru)
        } else if str_eq(name, "pink") {
            Some(CssName::Pink)
        } else if str_eq(name, "plum") {
            Some(CssName::Plum)
        } else if str_eq(name, "powderblue") {
            Some(CssName::PowderBlue)
        } else if str_eq(name, "purple") {
            Some(CssName::Purple)
        } else if str_eq(name, "red") {
            Some(CssName::Red)
        } else if str_eq(name, "rosybrown") {
            Some(CssName::RosyBrown)
        } else if str_eq(name, "royalblue") {
            Some(CssName::RoyalBlue)
        } else if str_eq(name, "saddlebrown") {
            Some(CssName::SaddleBrown)
        } else if str_eq(name, "salmon") {
            Some(CssName::Salmon)
        } else if str_eq(name, "sandybrown") {
            Some(CssName::SandyBrown)
        } else if str_eq(name, "seagreen") {
            Some(CssName::SeaGreen)
        } else if str_eq(name, "seashell") {
            Some(CssName::SeaShell)
        } else if str_eq(name, "sienna") {
            Some(CssName::Sienna)
        } else if str_eq(name, "silver") {
            Some(CssName::Silver)
        } else if str_eq(name, "skyblue") {
            Some(CssName::SkyBlue)
        } else if str_eq(name, "slateblue") {
            Some(CssName::SlateBlue)
        } else if str_eq(name, "slategray") {
            Some(CssName::SlateGrey)
        } else if str_eq(name, "slategrey") {
            Some(CssName::SlateGrey)
        } else if str_eq(name, "snow") {
            Some(CssName::Snow)
        } else if str_eq(name, "springgreen") {
            Some(CssName::SpringGreen)
        } else if str_eq(name, "steelblue") {
            Some(CssName::SteelBlue)
        } else if str_eq(name, "tan") {
            Some(CssName::Tan)
        } else if str_eq(name, "teal") {
            Some(CssName::Teal)
        } else if str_eq(name, "thistle") {
            Some(CssName::Thistle)
        } else if str_eq(name, "tomato") {
            Some(CssName::Tomato)
        } else if str_eq(name, "turquoise") {
            Some(CssName::Turquoise)
        } else if str_eq(name, "violet") {
            Some(CssName::Violet)
        } else if str_eq(name, "wheat") {
            Some(CssName::Wheat)
        } else if str_eq(name, "white") {
            Some(CssName::White)
        } else if str_eq(name, "whitesmoke") {
            Some(CssName::WhiteSmoke)
        } else if str_eq(name, "yellow") {
            Some(CssName::Yellow)
        } else if str_eq(name, "yellowgreen") {
            Some(CssName::YellowGreen)
        } else {
            None
        };
        match found {
            Some(n) => Some(Color::from(n)),
            None => None,
        }
    }
}

} // verus!
