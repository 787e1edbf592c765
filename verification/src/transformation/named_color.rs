//! The closed palette of standard color names. Every name renders as its
//! lowercase token, with no separators.

use vstd::prelude::*;

verus! {

/// A named color from the standard web palette.
#[derive(Debug, Clone, Copy, PartialEq, Eq)]
pub enum NamedColor {
    AliceBlue,
    AntiqueWhite,
    Aqua,
    Aquamarine,
    Azure,
    Beige,
    Bisque,
    Black,
    BlanchedAlmond,
    Blue,
    BlueViolet,
    Brown,
    BurlyWood,
    CadetBlue,
    Chartreuse,
    Chocolate,
    Coral,
    CornflowerBlue,
    Cornsilk,
    Crimson,
    Cyan,
    DarkBlue,
    DarkCyan,
    DarkGoldenRod,
    DarkGray,
    DarkGreen,
    DarkKhaki,
    DarkMagenta,
    DarkOliveGreen,
    DarkOrange,
    DarkOrchid,
    DarkRed,
    DarkSalmon,
    DarkSeaGreen,
    DarkSlateBlue,
    DarkSlateGray,
    DarkTurquoise,
    DarkViolet,
    DeepPink,
    DeepSkyBlue,
    DimGray,
    DodgerBlue,
    FireBrick,
    FloralWhite,
    ForestGreen,
    Fuchsia,
    Gainsboro,
    GhostWhite,
    Gold,
    GoldenRod,
    Gray,
    Green,
    GreenYellow,
    HoneyDew,
    HotPink,
    IndianRed,
    Indigo,
    Ivory,
    Khaki,
    Lavender,
    LavenderBlush,
    LawnGreen,
    LemonChiffon,
    LightBlue,
    LightCoral,
    LightCyan,
    LightGoldenRodYellow,
    LightGray,
    LightGreen,
    LightPink,
    LightSalmon,
    LightSeaGreen,
    LightSkyBlue,
    LightSlateGray,
    LightSteelBlue,
    LightYellow,
    Lime,
    LimeGreen,
    Linen,
    Magenta,
    Maroon,
    MediumAquaMarine,
    MediumBlue,
    MediumOrchid,
    MediumPurple,
    MediumSeaGreen,
    MediumSlateBlue,
    MediumSpringGreen,
    MediumTurquoise,
    MediumVioletRed,
    MidnightBlue,
    MintCream,
    MistyRose,
    Moccasin,
    NavajoWhite,
    Navy,
    OldLace,
    Olive,
    OliveDrab,
    Orange,
    OrangeRed,
    Orchid,
    PaleGoldenRod,
    PaleGreen,
    PaleTurquoise,
    PaleVioletRed,
    PapayaWhip,
    PeachPuff,
    Peru,
    Pink,
    Plum,
    PowderBlue,
    Purple,
    RebeccaPurple,
    Red,
    RosyBrown,
    RoyalBlue,
    SaddleBrown,
    Salmon,
    SandyBrown,
    SeaGreen,
    SeaShell,
    Sienna,
    Silver,
    SkyBlue,
    SlateBlue,
    SlateGray,
    Snow,
    SpringGreen,
    SteelBlue,
    Tan,
    Teal,
    Thistle,
    Tomato,
    Turquoise,
    Violet,
    Wheat,
    White,
    WhiteSmoke,
    Yellow,
    YellowGreen,
}

/// The canonical lowercase token of a named color.
pub open spec fn named_color_token(c: NamedColor) -> Seq<char> {
    match c {
        NamedColor::AliceBlue => "aliceblue"@,
        NamedColor::AntiqueWhite => "antiquewhite"@,
        NamedColor::Aqua => "aqua"@,
        NamedColor::Aquamarine => "aquamarine"@,
        NamedColor::Azure => "azure"@,
        NamedColor::Beige => "beige"@,
        NamedColor::Bisque => "bisque"@,
        NamedColor::Black => "black"@,
        NamedColor::BlanchedAlmond => "blanchedalmond"@,
        NamedColor::Blue => "blue"@,
        NamedColor::BlueViolet => "blueviolet"@,
        NamedColor::Brown => "brown"@,
        NamedColor::BurlyWood => "burlywood"@,
        NamedColor::CadetBlue => "cadetblue"@,
        NamedColor::Chartreuse => "chartreuse"@,
        NamedColor::Chocolate => "chocolate"@,
        NamedColor::Coral => "coral"@,
        NamedColor::CornflowerBlue => "cornflowerblue"@,
        NamedColor::Cornsilk => "cornsilk"@,
        NamedColor::Crimson => "crimson"@,
        NamedColor::Cyan => "cyan"@,
        NamedColor::DarkBlue => "darkblue"@,
        NamedColor::DarkCyan => "darkcyan"@,
        NamedColor::DarkGoldenRod => "darkgoldenrod"@,
        NamedColor::DarkGray => "darkgray"@,
        NamedColor::DarkGreen => "darkgreen"@,
        NamedColor::DarkKhaki => "darkkhaki"@,
        NamedColor::DarkMagenta => "darkmagenta"@,
        NamedColor::DarkOliveGreen => "darkolivegreen"@,
        NamedColor::DarkOrange => "darkorange"@,
        NamedColor::DarkOrchid => "darkorchid"@,
        NamedColor::DarkRed => "darkred"@,
        NamedColor::DarkSalmon => "darksalmon"@,
        NamedColor::DarkSeaGreen => "darkseagreen"@,
        NamedColor::DarkSlateBlue => "darkslateblue"@,
        NamedColor::DarkSlateGray => "darkslategray"@,
        NamedColor::DarkTurquoise => "darkturquoise"@,
        NamedColor::DarkViolet => "darkviolet"@,
        NamedColor::DeepPink => "deeppink"@,
        NamedColor::DeepSkyBlue => "deepskyblue"@,
        NamedColor::DimGray => "dimgray"@,
        NamedColor::DodgerBlue => "dodgerblue"@,
        NamedColor::FireBrick => "firebrick"@,
        NamedColor::FloralWhite => "floralwhite"@,
        NamedColor::ForestGreen => "forestgreen"@,
        NamedColor::Fuchsia => "fuchsia"@,
        NamedColor::Gainsboro => "gainsboro"@,
        NamedColor::GhostWhite => "ghostwhite"@,
        NamedColor::Gold => "gold"@,
        NamedColor::GoldenRod => "goldenrod"@,
        NamedColor::Gray => "gray"@,
        NamedColor::Green => "green"@,
        NamedColor::GreenYellow => "greenyellow"@,
        NamedColor::HoneyDew => "honeydew"@,
        NamedColor::HotPink => "hotpink"@,
        NamedColor::IndianRed => "indianred"@,
        NamedColor::Indigo => "indigo"@,
        NamedColor::Ivory => "ivory"@,
        NamedColor::Khaki => "khaki"@,
        NamedColor::Lavender => "lavender"@,
        NamedColor::LavenderBlush => "lavenderblush"@,
        NamedColor::LawnGreen => "lawngreen"@,
        NamedColor::LemonChiffon => "lemonchiffon"@,
        NamedColor::LightBlue => "lightblue"@,
        NamedColor::LightCoral => "lightcoral"@,
        NamedColor::LightCyan => "lightcyan"@,
        NamedColor::LightGoldenRodYellow => "lightgoldenrodyellow"@,
        NamedColor::LightGray => "lightgray"@,
        NamedColor::LightGreen => "lightgreen"@,
        NamedColor::LightPink => "lightpink"@,
        NamedColor::LightSalmon => "lightsalmon"@,
        NamedColor::LightSeaGreen => "lightseagreen"@,
        NamedColor::LightSkyBlue => "lightskyblue"@,
        NamedColor::LightSlateGray => "lightslategray"@,
        NamedColor::LightSteelBlue => "lightsteelblue"@,
        NamedColor::LightYellow => "lightyellow"@,
        NamedColor::Lime => "lime"@,
        NamedColor::LimeGreen => "limegreen"@,
        NamedColor::Linen => "linen"@,
        NamedColor::Magenta => "magenta"@,
        NamedColor::Maroon => "maroon"@,
        NamedColor::MediumAquaMarine => "mediumaquamarine"@,
        NamedColor::MediumBlue => "mediumblue"@,
        NamedColor::MediumOrchid => "mediumorchid"@,
        NamedColor::MediumPurple => "mediumpurple"@,
        NamedColor::MediumSeaGreen => "mediumseagreen"@,
        NamedColor::MediumSlateBlue => "mediumslateblue"@,
        NamedColor::MediumSpringGreen => "mediumspringgreen"@,
        NamedColor::MediumTurquoise => "mediumturquoise"@,
        NamedColor::MediumVioletRed => "mediumvioletred"@,
        NamedColor::MidnightBlue => "midnightblue"@,
        NamedColor::MintCream => "mintcream"@,
        NamedColor::MistyRose => "mistyrose"@,
        NamedColor::Moccasin => "moccasin"@,
        NamedColor::NavajoWhite => "navajowhite"@,
        NamedColor::Navy => "navy"@,
        NamedColor::OldLace => "oldlace"@,
        NamedColor::Olive => "olive"@,
        NamedColor::OliveDrab => "olivedrab"@,
        NamedColor::Orange => "orange"@,
        NamedColor::OrangeRed => "orangered"@,
        NamedColor::Orchid => "orchid"@,
        NamedColor::PaleGoldenRod => "palegoldenrod"@,
        NamedColor::PaleGreen => "palegreen"@,
        NamedColor::PaleTurquoise => "paleturquoise"@,
        NamedColor::PaleVioletRed => "palevioletred"@,
        NamedColor::PapayaWhip => "papayawhip"@,
        NamedColor::PeachPuff => "peachpuff"@,
        NamedColor::Peru => "peru"@,
        NamedColor::Pink => "pink"@,
        NamedColor::Plum => "plum"@,
        NamedColor::PowderBlue => "powderblue"@,
        NamedColor::Purple => "purple"@,
        NamedColor::RebeccaPurple => "rebeccapurple"@,
        NamedColor::Red => "red"@,
        NamedColor::RosyBrown => "rosybrown"@,
        NamedColor::RoyalBlue => "royalblue"@,
        NamedColor::SaddleBrown => "saddlebrown"@,
        NamedColor::Salmon => "salmon"@,
        NamedColor::SandyBrown => "sandybrown"@,
        NamedColor::SeaGreen => "seagreen"@,
        NamedColor::SeaShell => "seashell"@,
        NamedColor::Sienna => "sienna"@,
        NamedColor::Silver => "silver"@,
        NamedColor::SkyBlue => "skyblue"@,
        NamedColor::SlateBlue => "slateblue"@,
        NamedColor::SlateGray => "slategray"@,
        NamedColor::Snow => "snow"@,
        NamedColor::SpringGreen => "springgreen"@,
        NamedColor::SteelBlue => "steelblue"@,
        NamedColor::Tan => "tan"@,
        NamedColor::Teal => "teal"@,
        NamedColor::Thistle => "thistle"@,
        NamedColor::Tomato => "tomato"@,
        NamedColor::Turquoise => "turquoise"@,
        NamedColor::Violet => "violet"@,
        NamedColor::Wheat => "wheat"@,
        NamedColor::White => "white"@,
        NamedColor::WhiteSmoke => "whitesmoke"@,
        NamedColor::Yellow => "yellow"@,
        NamedColor::YellowGreen => "yellowgreen"@,
    }
}

impl NamedColor {
    /// The canonical lowercase token of this color name.
    pub fn to_token(&self) -> (r: String)
        ensures
            r@ == named_color_token(*self),
    {
        match self {
            NamedColor::AliceBlue => String::from_str("aliceblue"),
            NamedColor::AntiqueWhite => String::from_str("antiquewhite"),
            NamedColor::Aqua => String::from_str("aqua"),
            NamedColor::Aquamarine => String::from_str("aquamarine"),
            NamedColor::Azure => String::from_str("azure"),
            NamedColor::Beige => String::from_str("beige"),
            NamedColor::Bisque => String::from_str("bisque"),
            NamedColor::Black => String::from_str("black"),
            NamedColor::BlanchedAlmond => String::from_str("blanchedalmond"),
            NamedColor::Blue => String::from_str("blue"),
            NamedColor::BlueViolet => String::from_str("blueviolet"),
            NamedColor::Brown => String::from_str("brown"),
            NamedColor::BurlyWood => String::from_str("burlywood"),
            NamedColor::CadetBlue => String::from_str("cadetblue"),
            NamedColor::Chartreuse => String::from_str("chartreuse"),
            NamedColor::Chocolate => String::from_str("chocolate"),
            NamedColor::Coral => String::from_str("coral"),
            NamedColor::CornflowerBlue => String::from_str("cornflowerblue"),
            NamedColor::Cornsilk => String::from_str("cornsilk"),
            NamedColor::Crimson => String::from_str("crimson"),
            NamedColor::Cyan => String::from_str("cyan"),
            NamedColor::DarkBlue => String::from_str("darkblue"),
            NamedColor::DarkCyan => String::from_str("darkcyan"),
            NamedColor::DarkGoldenRod => String::from_str("darkgoldenrod"),
            NamedColor::DarkGray => String::from_str("darkgray"),
            NamedColor::DarkGreen => String::from_str("darkgreen"),
            NamedColor::DarkKhaki => String::from_str("darkkhaki"),
            NamedColor::DarkMagenta => String::from_str("darkmagenta"),
            NamedColor::DarkOliveGreen => String::from_str("darkolivegreen"),
            NamedColor::DarkOrange => String::from_str("darkorange"),
            NamedColor::DarkOrchid => String::from_str("darkorchid"),
            NamedColor::DarkRed => String::from_str("darkred"),
            NamedColor::DarkSalmon => String::from_str("darksalmon"),
            NamedColor::DarkSeaGreen => String::from_str("darkseagreen"),
            NamedColor::DarkSlateBlue => String::from_str("darkslateblue"),
            NamedColor::DarkSlateGray => String::from_str("darkslategray"),
            NamedColor::DarkTurquoise => String::from_str("darkturquoise"),
            NamedColor::DarkViolet => String::from_str("darkviolet"),
            NamedColor::DeepPink => String::from_str("deeppink"),
            NamedColor::DeepSkyBlue => String::from_str("deepskyblue"),
            NamedColor::DimGray => String::from_str("dimgray"),
            NamedColor::DodgerBlue => String::from_str("dodgerblue"),
            NamedColor::FireBrick => String::from_str("firebrick"),
            NamedColor::FloralWhite => String::from_str("floralwhite"),
            NamedColor::ForestGreen => String::from_str("forestgreen"),
            NamedColor::Fuchsia => String::from_str("fuchsia"),
            NamedColor::Gainsboro => String::from_str("gainsboro"),
            NamedColor::GhostWhite => String::from_str("ghostwhite"),
            NamedColor::Gold => String::from_str("gold"),
            NamedColor::GoldenRod => String::from_str("goldenrod"),
            NamedColor::Gray => String::from_str("gray"),
            NamedColor::Green => String::from_str("green"),
            NamedColor::GreenYellow => String::from_str("greenyellow"),
            NamedColor::HoneyDew => String::from_str("honeydew"),
            NamedColor::HotPink => String::from_str("hotpink"),
            NamedColor::IndianRed => String::from_str("indianred"),
            NamedColor::Indigo => String::from_str("indigo"),
            NamedColor::Ivory => String::from_str("ivory"),
            NamedColor::Khaki => String::from_str("khaki"),
            NamedColor::Lavender => String::from_str("lavender"),
            NamedColor::LavenderBlush => String::from_str("lavenderblush"),
            NamedColor::LawnGreen => String::from_str("lawngreen"),
            NamedColor::LemonChiffon => String::from_str("lemonchiffon"),
            NamedColor::LightBlue => String::from_str("lightblue"),
            NamedColor::LightCoral => String::from_str("lightcoral"),
            NamedColor::LightCyan => String::from_str("lightcyan"),
            NamedColor::LightGoldenRodYellow => String::from_str("lightgoldenrodyellow"),
            NamedColor::LightGray => String::from_str("lightgray"),
            NamedColor::LightGreen => String::from_str("lightgreen"),
            NamedColor::LightPink => String::from_str("lightpink"),
            NamedColor::LightSalmon => String::from_str("lightsalmon"),
            NamedColor::LightSeaGreen => String::from_str("lightseagreen"),
            NamedColor::LightSkyBlue => String::from_str("lightskyblue"),
            NamedColor::LightSlateGray => String::from_str("lightslategray"),
            NamedColor::LightSteelBlue => String::from_str("lightsteelblue"),
            NamedColor::LightYellow => String::from_str("lightyellow"),
            NamedColor::Lime => String::from_str("lime"),
            NamedColor::LimeGreen => String::from_str("limegreen"),
            NamedColor::Linen => String::from_str("linen"),
            NamedColor::Magenta => String::from_str("magenta"),
            NamedColor::Maroon => String::from_str("maroon"),
            NamedColor::MediumAquaMarine => String::from_str("mediumaquamarine"),
            NamedColor::MediumBlue => String::from_str("mediumblue"),
            NamedColor::MediumOrchid => String::from_str("mediumorchid"),
            NamedColor::MediumPurple => String::from_str("mediumpurple"),
            NamedColor::MediumSeaGreen => String::from_str("mediumseagreen"),
            NamedColor::MediumSlateBlue => String::from_str("mediumslateblue"),
            NamedColor::MediumSpringGreen => String::from_str("mediumspringgreen"),
            NamedColor::MediumTurquoise => String::from_str("mediumturquoise"),
            NamedColor::MediumVioletRed => String::from_str("mediumvioletred"),
            NamedColor::MidnightBlue => String::from_str("midnightblue"),
            NamedColor::MintCream => String::from_str("mintcream"),
            NamedColor::MistyRose => String::from_str("mistyrose"),
            NamedColor::Moccasin => String::from_str("moccasin"),
            NamedColor::NavajoWhite => String::from_str("navajowhite"),
            NamedColor::Navy => String::from_str("navy"),
            NamedColor::OldLace => String::from_str("oldlace"),
            NamedColor::Olive => String::from_str("olive"),
            NamedColor::OliveDrab => String::from_str("olivedrab"),
            NamedColor::Orange => String::from_str("orange"),
            NamedColor::OrangeRed => String::from_str("orangered"),
            NamedColor::Orchid => String::from_str("orchid"),
            NamedColor::PaleGoldenRod => String::from_str("palegoldenrod"),
            NamedColor::PaleGreen => String::from_str("palegreen"),
            NamedColor::PaleTurquoise => String::from_str("paleturquoise"),
            NamedColor::PaleVioletRed => String::from_str("palevioletred"),
            NamedColor::PapayaWhip => String::from_str("papayawhip"),
            NamedColor::PeachPuff => String::from_str("peachpuff"),
            NamedColor::Peru => String::from_str("peru"),
            NamedColor::Pink => String::from_str("pink"),
            NamedColor::Plum => String::from_str("plum"),
            NamedColor::PowderBlue => String::from_str("powderblue"),
            NamedColor::Purple => String::from_str("purple"),
            NamedColor::RebeccaPurple => String::from_str("rebeccapurple"),
            NamedColor::Red => String::from_str("red"),
            NamedColor::RosyBrown => String::from_str("rosybrown"),
            NamedColor::RoyalBlue => String::from_str("royalblue"),
            NamedColor::SaddleBrown => String::from_str("saddlebrown"),
            NamedColor::Salmon => String::from_str("salmon"),
            NamedColor::SandyBrown => String::from_str("sandybrown"),
            NamedColor::SeaGreen => String::from_str("seagreen"),
            NamedColor::SeaShell => String::from_str("seashell"),
            NamedColor::Sienna => String::from_str("sienna"),
            NamedColor::Silver => String::from_str("silver"),
            NamedColor::SkyBlue => String::from_str("skyblue"),
            NamedColor::SlateBlue => String::from_str("slateblue"),
            NamedColor::SlateGray => String::from_str("slategray"),
            NamedColor::Snow => String::from_str("snow"),
            NamedColor::SpringGreen => String::from_str("springgreen"),
            NamedColor::SteelBlue => String::from_str("steelblue"),
            NamedColor::Tan => String::from_str("tan"),
            NamedColor::Teal => String::from_str("teal"),
            NamedColor::Thistle => String::from_str("thistle"),
            NamedColor::Tomato => String::from_str("tomato"),
            NamedColor::Turquoise => String::from_str("turquoise"),
            NamedColor::Violet => String::from_str("violet"),
            NamedColor::Wheat => String::from_str("wheat"),
            NamedColor::White => String::from_str("white"),
            NamedColor::WhiteSmoke => String::from_str("whitesmoke"),
            NamedColor::Yellow => String::from_str("yellow"),
            NamedColor::YellowGreen => String::from_str("yellowgreen"),
        }
    }
}

} // verus!
