//! The background qualifier: a fixed color or an automatically chosen one.

use vstd::prelude::*;

use crate::text::{hex_byte, join_by};
use crate::transformation::named_color::{named_color_token, NamedColor};

verus! {

/// The method used for determining the automatically applied solid or
/// gradient background color(s).
#[derive(Debug, Clone)]
pub enum AutoModes {
    /// The predominant color, taking only the image border pixels into
    /// account.
    Border,
    /// The predominant color, taking all pixels in the image into account.
    Predominant,
    /// The strongest contrast to the predominant color of the border pixels.
    BorderContrast,
    /// The strongest contrast to the predominant color of all pixels.
    PredominantContrast,
    /// A gradient fade based on the predominant colors in the image.
    PredominantGradient,
    /// A gradient fade based on the colors that contrast the predominant
    /// colors in the image.
    PredominantGradientContrast,
    /// A gradient fade based on the predominant colors of the border pixels.
    BorderGradient,
    /// A gradient fade based on the colors that contrast the predominant
    /// colors of the border pixels.
    BorderGradientContrast,
}

/// The canonical token of an automatic background mode.
pub open spec fn auto_modes_token(m: AutoModes) -> Seq<char> {
    match m {
        AutoModes::Border => "border"@,
        AutoModes::Predominant => "predominant"@,
        AutoModes::BorderContrast => "border_contrast"@,
        AutoModes::PredominantContrast => "predominant_contrast"@,
        AutoModes::PredominantGradient => "predominant_gradient"@,
        AutoModes::PredominantGradientContrast => "predominant_gradient_contrast"@,
        AutoModes::BorderGradient => "border_gradient"@,
        AutoModes::BorderGradientContrast => "border_gradient_contrast"@,
    }
}

impl AutoModes {
    /// The canonical token of this mode.
    pub fn to_token(&self) -> (r: String)
        ensures
            r@ == auto_modes_token(*self),
    {
        match self {
            AutoModes::Border => String::from_str("border"),
            AutoModes::Predominant => String::from_str("predominant"),
            AutoModes::BorderContrast => String::from_str("border_contrast"),
            AutoModes::PredominantContrast => String::from_str("predominant_contrast"),
            AutoModes::PredominantGradient => String::from_str("predominant_gradient"),
            AutoModes::PredominantGradientContrast => String::from_str(
                "predominant_gradient_contrast",
            ),
            AutoModes::BorderGradient => String::from_str("border_gradient"),
            AutoModes::BorderGradientContrast => String::from_str("border_gradient_contrast"),
        }
    }
}

/// The number of predominant colors to select for a gradient background.
#[derive(Debug, Clone)]
pub enum Number {
    Two,
    Four,
}

/// The canonical token of a predominant-color count.
pub open spec fn number_token(n: Number) -> Seq<char> {
    match n {
        Number::Two => "2"@,
        Number::Four => "4"@,
    }
}

impl Number {
    /// The canonical token of this count.
    pub fn to_token(&self) -> (r: String)
        ensures
            r@ == number_token(*self),
    {
        match self {
            Number::Two => String::from_str("2"),
            Number::Four => String::from_str("4"),
        }
    }
}

/// The direction in which two selected gradient colors are blended.
#[derive(Debug, Clone)]
pub enum Direction {
    Horizontal,
    Vertical,
    DiagonalDesc,
    DiagonalAsc,
}

/// The canonical token of a gradient blend direction.
pub open spec fn direction_token(d: Direction) -> Seq<char> {
    match d {
        Direction::Horizontal => "horizontal"@,
        Direction::Vertical => "vertical"@,
        Direction::DiagonalDesc => "diagonal_desc"@,
        Direction::DiagonalAsc => "diagonal_asc"@,
    }
}

impl Direction {
    /// The canonical token of this direction.
    pub fn to_token(&self) -> (r: String)
        ensures
            r@ == direction_token(*self),
    {
        match self {
            Direction::Horizontal => String::from_str("horizontal"),
            Direction::Vertical => String::from_str("vertical"),
            Direction::DiagonalDesc => String::from_str("diagonal_desc"),
            Direction::DiagonalAsc => String::from_str("diagonal_asc"),
        }
    }
}

/// A color: a standard name, or explicit channel bytes.
#[derive(Debug, Clone)]
pub enum Color {
    Named(NamedColor),
    RGB(u8, u8, u8),
    RGBA(u8, u8, u8, u8),
}

/// The canonical token of a color. Byte forms render as lowercase hex,
/// zero-padded to two digits per channel, prefixed with "rgb:"; named forms
/// render as their lowercase name.
pub open spec fn color_token(c: Color) -> Seq<char> {
    match c {
        Color::Named(n) => named_color_token(n),
        Color::RGB(r, g, b) => "rgb:"@ + hex_byte(r) + hex_byte(g) + hex_byte(b),
        Color::RGBA(r, g, b, a) => "rgb:"@ + hex_byte(r) + hex_byte(g) + hex_byte(b) + hex_byte(a),
    }
}

impl Color {
    /// The canonical token of this color.
    pub fn to_token(&self) -> (t: String)
        ensures
            t@ == color_token(*self),
    {
        match self {
            Color::Named(n) => n.to_token(),
            Color::RGB(r, g, b) => {
                let mut s = String::from_str("rgb:");
                s.append(crate::text::hex_byte_str(*r).as_str());
                s.append(crate::text::hex_byte_str(*g).as_str());
                s.append(crate::text::hex_byte_str(*b).as_str());
                proof {
                    assert(s@ =~= color_token(*self));
                }
                s
            },
            Color::RGBA(r, g, b, a) => {
                let mut s = String::from_str("rgb:");
                s.append(crate::text::hex_byte_str(*r).as_str());
                s.append(crate::text::hex_byte_str(*g).as_str());
                s.append(crate::text::hex_byte_str(*b).as_str());
                s.append(crate::text::hex_byte_str(*a).as_str());
                proof {
                    assert(s@ =~= color_token(*self));
                }
                s
            },
        }
    }
}

impl From<NamedColor> for Color {
    fn from(color: NamedColor) -> (c: Color) {
        Color::Named(color)
    }
}

impl vstd::std_specs::convert::FromSpecImpl<NamedColor> for Color {
    open spec fn obeys_from_spec() -> bool {
        true
    }

    open spec fn from_spec(color: NamedColor) -> Color {
        Color::Named(color)
    }
}

/// An automatically chosen background. Each sub-field is independently
/// optional; absence of all four renders as bare "auto".
#[derive(Debug, Clone)]
pub struct Auto {
    /// The method used for determining the color(s) to apply.
    pub mode: Option<AutoModes>,
    /// The number of predominant colors to select, for gradient modes.
    pub number: Option<Number>,
    /// The direction in which two selected colors are blended.
    pub direction: Option<Direction>,
    /// The palette of colors to use in the border.
    pub palette: Option<Vec<Color>>,
}

/// The palette sub-token: "palette_" followed by the color tokens joined
/// with underscores.
pub open spec fn palette_token(colors: Seq<Color>) -> Seq<char> {
    "palette_"@ + join_by(colors.map(|i, c: Color| color_token(c)), "_"@)
}

/// The canonical token of an automatic background: "auto" followed by the
/// present sub-fields, colon-joined, in the fixed order mode, count,
/// direction, palette.
pub open spec fn auto_token(a: Auto) -> Seq<char> {
    "auto"@ + (match a.mode {
        Some(m) => ":"@ + auto_modes_token(m),
        None => Seq::empty(),
    }) + (match a.number {
        Some(n) => ":"@ + number_token(n),
        None => Seq::empty(),
    }) + (match a.direction {
        Some(d) => ":"@ + direction_token(d),
        None => Seq::empty(),
    }) + (match a.palette {
        Some(p) => ":"@ + palette_token(p@),
        None => Seq::empty(),
    })
}

/// Joins the tokens of the given colors with underscores.
fn palette_join_token(colors: &Vec<Color>) -> (r: String)
    ensures
        r@ == join_by(colors@.map(|i, c: Color| color_token(c)), "_"@),
{
    let ghost model = colors@.map(|i, c: Color| color_token(c));
    let mut out = String::new();
    let mut i: usize = 0;
    while i < colors.len()
        invariant
            0 <= i <= colors.len(),
            model == colors@.map(|i, c: Color| color_token(c)),
            out@ == join_by(model.take(i as int), "_"@),
        decreases colors.len() - i,
    {
        proof {
            crate::text::lemma_join_by_step(model, "_"@, i as int);
        }
        if i > 0 {
            out.append("_");
        }
        out.append(colors[i].to_token().as_str());
        i = i + 1;
    }
    proof {
        assert(model.take(colors.len() as int) =~= model);
    }
    out
}

impl Auto {
    /// The canonical token of this automatic background.
    pub fn to_token(&self) -> (r: String)
        ensures
            r@ == auto_token(*self),
    {
        let mut s = String::from_str("auto");
        if let Some(m) = &self.mode {
            s.append(":");
            s.append(m.to_token().as_str());
        }
        if let Some(n) = &self.number {
            s.append(":");
            s.append(n.to_token().as_str());
        }
        if let Some(d) = &self.direction {
            s.append(":");
            s.append(d.to_token().as_str());
        }
        if let Some(p) = &self.palette {
            s.append(":");
            s.append("palette_");
            s.append(palette_join_token(p).as_str());
        }
        proof {
            assert(s@ =~= auto_token(*self));
        }
        s
    }
}

/// The optional background prefix of a segment: the token followed by a
/// comma when present, empty otherwise.
pub open spec fn background_prefix(b: Option<Background>) -> Seq<char> {
    match b {
        Some(bg) => background_token(bg) + ","@,
        None => Seq::empty(),
    }
}

/// A background applied to empty or transparent areas; as a qualifier it
/// overrides the default background color for padded cropping.
#[derive(Debug, Clone)]
pub enum Background {
    Color(Color),
    Auto(Auto),
}

/// The canonical token of a background qualifier, including its "b_" prefix.
pub open spec fn background_token(b: Background) -> Seq<char> {
    match b {
        Background::Color(c) => "b_"@ + color_token(c),
        Background::Auto(a) => "b_"@ + auto_token(a),
    }
}

impl Background {
    /// The canonical token of this qualifier, including its "b_" prefix.
    pub fn to_token(&self) -> (r: String)
        ensures
            r@ == background_token(*self),
    {
        let mut s = String::from_str("b_");
        match self {
            Background::Color(c) => {
                s.append(c.to_token().as_str());
            },
            Background::Auto(a) => {
                s.append(a.to_token().as_str());
            },
        }
        s
    }
}

impl From<Color> for Background {
    fn from(color: Color) -> (b: Background) {
        Background::Color(color)
    }
}

impl vstd::std_specs::convert::FromSpecImpl<Color> for Background {
    open spec fn obeys_from_spec() -> bool {
        true
    }

    open spec fn from_spec(color: Color) -> Background {
        Background::Color(color)
    }
}

impl From<NamedColor> for Background {
    fn from(color: NamedColor) -> (b: Background) {
        Background::Color(Color::Named(color))
    }
}

impl vstd::std_specs::convert::FromSpecImpl<NamedColor> for Background {
    open spec fn obeys_from_spec() -> bool {
        true
    }

    open spec fn from_spec(color: NamedColor) -> Background {
        Background::Color(Color::Named(color))
    }
}

impl From<Auto> for Background {
    fn from(auto: Auto) -> (b: Background) {
        Background::Auto(auto)
    }
}

impl vstd::std_specs::convert::FromSpecImpl<Auto> for Background {
    open spec fn obeys_from_spec() -> bool {
        true
    }

    open spec fn from_spec(auto: Auto) -> Background {
        Background::Auto(auto)
    }
}

} // verus!
