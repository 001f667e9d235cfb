use vstd::prelude::*;

verus! {

/// A terminal color: the terminal's configured default, one of the named
/// palette colors, an entry of the 256-color table, or a true-color RGB
/// triple.
#[derive(Clone, Copy, Debug, PartialEq, Eq)]
pub enum Color {
    Reset,
    Black,
    Red,
    Green,
    Yellow,
    Blue,
    Magenta,
    Cyan,
    Gray,
    DarkGray,
    LightRed,
    LightGreen,
    LightYellow,
    LightBlue,
    LightMagenta,
    LightCyan,
    LightGray,
    White,
    Rgb(u8, u8, u8),
    Indexed(u8),
}

/// The variant of underline a terminal cell is drawn with.
#[derive(Clone, Copy, Debug, PartialEq, Eq)]
pub enum UnderlineStyle {
    Reset,
    Line,
    Curl,
    Dotted,
    Dashed,
    DoubleLine,
}

/// A bitset of text-emphasis attributes; the bits are independent and
/// composable.
#[derive(Clone, Copy, Debug, PartialEq, Eq)]
pub struct Modifier {
    pub bits: u16,
}

impl Modifier {
    /// No emphasis at all.
    pub fn empty() -> (m: Modifier)
        ensures
            m.bits == 0u16,
    {
        Modifier { bits: 0 }
    }

    pub fn bold() -> (m: Modifier)
        ensures
            m.bits == 0x0001u16,
    {
        Modifier { bits: 0x0001 }
    }

    pub fn dim() -> (m: Modifier)
        ensures
            m.bits == 0x0002u16,
    {
        Modifier { bits: 0x0002 }
    }

    pub fn italic() -> (m: Modifier)
        ensures
            m.bits == 0x0004u16,
    {
        Modifier { bits: 0x0004 }
    }

    pub fn underlined() -> (m: Modifier)
        ensures
            m.bits == 0x0008u16,
    {
        Modifier { bits: 0x0008 }
    }

    pub fn slow_blink() -> (m: Modifier)
        ensures
            m.bits == 0x0010u16,
    {
        Modifier { bits: 0x0010 }
    }

    pub fn reversed() -> (m: Modifier)
        ensures
            m.bits == 0x0040u16,
    {
        Modifier { bits: 0x0040 }
    }

    pub fn crossed_out() -> (m: Modifier)
        ensures
            m.bits == 0x0100u16,
    {
        Modifier { bits: 0x0100 }
    }

    /// The union of two bitsets.
    pub fn with(self, other: Modifier) -> (m: Modifier)
        ensures
            m.bits == (self.bits | other.bits),
    {
        Modifier { bits: self.bits | other.bits }
    }

    /// Whether every bit of `other` is also set in `self`.
    pub fn contains(self, other: Modifier) -> (r: bool)
        ensures
            r == ((self.bits & other.bits) == other.bits),
    {
        (self.bits & other.bits) == other.bits
    }
}

/// A terminal cell's paintable attributes: optional foreground and
/// background colors, an optional underline color and variant, and a bitset
/// of emphasis modifiers. An immutable value; equality is structural.
#[derive(Clone, Copy, Debug, PartialEq, Eq)]
pub struct Style {
    pub fg: Option<Color>,
    pub bg: Option<Color>,
    pub underline_color: Option<Color>,
    pub underline_style: Option<UnderlineStyle>,
    pub modifiers: Modifier,
}

/// The style that sets nothing: no colors, no underline, no modifiers.
pub open spec fn empty_style() -> Style {
    Style {
        fg: None,
        bg: None,
        underline_color: None,
        underline_style: None,
        modifiers: Modifier { bits: 0 },
    }
}

/// A style assembled field by field: the shape every entry of a theme
/// table can be written in.
pub open spec fn style_of(
    fg: Option<Color>,
    bg: Option<Color>,
    underline_color: Option<Color>,
    underline_style: Option<UnderlineStyle>,
    bits: u16,
) -> Style {
    Style { fg, bg, underline_color, underline_style, modifiers: Modifier { bits } }
}

/// A style that sets only the foreground color.
pub open spec fn fg_style(c: Color) -> Style {
    Style {
        fg: Some(c),
        bg: None,
        underline_color: None,
        underline_style: None,
        modifiers: Modifier { bits: 0 },
    }
}

/// The style synthesized for an inline-RGB highlight: exactly that color as
/// foreground and every other field empty.
pub open spec fn rgb_fg_style(r: u8, g: u8, b: u8) -> Style {
    fg_style(Color::Rgb(r, g, b))
}

/// True when a style needs no true-color support: neither its foreground
/// nor its background is an RGB value.
pub open spec fn style_is_16(s: Style) -> bool {
    !(s.fg matches Some(Color::Rgb(..))) && !(s.bg matches Some(Color::Rgb(..)))
}

impl Style {
    /// The empty style.
    pub fn new() -> (s: Style)
        ensures
            s == empty_style(),
    {
        Style {
            fg: None,
            bg: None,
            underline_color: None,
            underline_style: None,
            modifiers: Modifier::empty(),
        }
    }

    /// The same style with the foreground set to `color`.
    pub fn fg(self, color: Color) -> (s: Style)
        ensures
            s.fg == Some(color),
            s.bg == self.bg,
            s.underline_color == self.underline_color,
            s.underline_style == self.underline_style,
            s.modifiers == self.modifiers,
    {
        Style { fg: Some(color), ..self }
    }

    /// The same style with the background set to `color`.
    pub fn bg(self, color: Color) -> (s: Style)
        ensures
            s.bg == Some(color),
            s.fg == self.fg,
            s.underline_color == self.underline_color,
            s.underline_style == self.underline_style,
            s.modifiers == self.modifiers,
    {
        Style { bg: Some(color), ..self }
    }

    /// The same style with the underline color set to `color`.
    pub fn underline_color(self, color: Color) -> (s: Style)
        ensures
            s.underline_color == Some(color),
            s.fg == self.fg,
            s.bg == self.bg,
            s.underline_style == self.underline_style,
            s.modifiers == self.modifiers,
    {
        Style { underline_color: Some(color), ..self }
    }

    /// The same style with the underline variant set to `style`.
    pub fn underline_style(self, style: UnderlineStyle) -> (s: Style)
        ensures
            s.underline_style == Some(style),
            s.fg == self.fg,
            s.bg == self.bg,
            s.underline_color == self.underline_color,
            s.modifiers == self.modifiers,
    {
        Style { underline_style: Some(style), ..self }
    }

    /// The same style with the bits of `modifier` added to its emphasis set.
    pub fn add_modifier(self, modifier: Modifier) -> (s: Style)
        ensures
            s.modifiers.bits == (self.modifiers.bits | modifier.bits),
            s.fg == self.fg,
            s.bg == self.bg,
            s.underline_color == self.underline_color,
            s.underline_style == self.underline_style,
    {
        Style { modifiers: self.modifiers.with(modifier), ..self }
    }
}

impl Default for Style {
    /// The empty style, identical to `Style::new`.
    fn default() -> (s: Style)
        ensures
            s == empty_style(),
    {
        Style::new()
    }
}

} // verus!
