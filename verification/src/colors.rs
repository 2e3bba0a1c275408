use vstd::prelude::*;

verus! {

/// A color slot of the theme.
#[derive(Clone, Copy, Debug, PartialEq, Eq, Structural)]
pub enum ThemeColor {
    Black,
    Red,
    Green,
    Yellow,
    Blue,
    Magenta,
    Cyan,
    White,
    BrightBlack,
    BrightRed,
    BrightGreen,
    BrightYellow,
    BrightBlue,
    BrightMagenta,
    BrightCyan,
    BrightWhite,
    Foreground,
    Background,
    Cursor,
}

/// The color of a cell: a theme slot or an explicit RGB value.
#[derive(Clone, Copy, Debug, PartialEq, Eq, Structural)]
pub enum CellColor {
    Theme(ThemeColor),
    Rgb(u8, u8, u8),
}

/// The sixteen ANSI colors, in palette order.
pub open spec fn ansi_color(idx: u8) -> ThemeColor
    recommends
        idx < 16,
{
    if idx == 0 {
        ThemeColor::Black
    } else if idx == 1 {
        ThemeColor::Red
    } else if idx == 2 {
        ThemeColor::Green
    } else if idx == 3 {
        ThemeColor::Yellow
    } else if idx == 4 {
        ThemeColor::Blue
    } else if idx == 5 {
        ThemeColor::Magenta
    } else if idx == 6 {
        ThemeColor::Cyan
    } else if idx == 7 {
        ThemeColor::White
    } else if idx == 8 {
        ThemeColor::BrightBlack
    } else if idx == 9 {
        ThemeColor::BrightRed
    } else if idx == 10 {
        ThemeColor::BrightGreen
    } else if idx == 11 {
        ThemeColor::BrightYellow
    } else if idx == 12 {
        ThemeColor::BrightBlue
    } else if idx == 13 {
        ThemeColor::BrightMagenta
    } else if idx == 14 {
        ThemeColor::BrightCyan
    } else {
        ThemeColor::BrightWhite
    }
}

/// The xterm 256-color palette: the sixteen theme colors, a 6x6x6 color
/// cube in steps of 51, then a 24-step gray ramp from 8 in steps of 10.
pub open spec fn spec_indexed_color(idx: u8) -> CellColor {
    if idx < 16 {
        CellColor::Theme(ansi_color(idx))
    } else if idx < 232 {
        let i = idx - 16;
        CellColor::Rgb(
            (((i / 36) % 6) * 51) as u8,
            (((i / 6) % 6) * 51) as u8,
            ((i % 6) * 51) as u8,
        )
    } else {
        let gray = ((idx - 232) * 10 + 8) as u8;
        CellColor::Rgb(gray, gray, gray)
    }
}

fn ansi_color_of(idx: u8) -> (r: ThemeColor)
    ensures
        r == ansi_color(idx),
{
    match idx {
        0 => ThemeColor::Black,
        1 => ThemeColor::Red,
        2 => ThemeColor::Green,
        3 => ThemeColor::Yellow,
        4 => ThemeColor::Blue,
        5 => ThemeColor::Magenta,
        6 => ThemeColor::Cyan,
        7 => ThemeColor::White,
        8 => ThemeColor::BrightBlack,
        9 => ThemeColor::BrightRed,
        10 => ThemeColor::BrightGreen,
        11 => ThemeColor::BrightYellow,
        12 => ThemeColor::BrightBlue,
        13 => ThemeColor::BrightMagenta,
        14 => ThemeColor::BrightCyan,
        _ => ThemeColor::BrightWhite,
    }
}

/// The color of an indexed (256-color) cell color.
pub fn indexed_color(idx: u8) -> (r: CellColor)
    ensures
        r == spec_indexed_color(idx),
{
    if idx < 16 {
        CellColor::Theme(ansi_color_of(idx))
    } else if idx < 232 {
        let i = idx - 16;
        CellColor::Rgb(((i / 36) % 6) * 51, ((i / 6) % 6) * 51, (i % 6) * 51)
    } else {
        let gray = (idx - 232) * 10 + 8;
        CellColor::Rgb(gray, gray, gray)
    }
}

/// The theme slot for a named color the theme has no slot of its own for:
/// the foreground for text, the background otherwise.
pub fn default_named_color(is_fg: bool) -> (r: ThemeColor)
    ensures
        r == (if is_fg {
            ThemeColor::Foreground
        } else {
            ThemeColor::Background
        }),
{
    if is_fg {
        ThemeColor::Foreground
    } else {
        ThemeColor::Background
    }
}

/// A cell color as the terminal emulator reports it: a named color (by
/// its theme slot; `None` for named colors without one, such as the dim
/// variants), an explicit RGB value, or an index into the 256-color
/// palette.
#[derive(Clone, Copy, Debug, PartialEq, Eq, Structural)]
pub enum TermColor {
    Named(Option<ThemeColor>),
    Spec(u8, u8, u8),
    Indexed(u8),
}

/// The color a cell is drawn with (`is_fg`: its text, else its
/// background): named colors take their theme slot (a named color without
/// one takes the foreground or background), RGB values stay, indexes go
/// through the 256-color palette.
pub open spec fn spec_convert_color(color: TermColor, is_fg: bool) -> CellColor {
    match color {
        TermColor::Named(Some(t)) => CellColor::Theme(t),
        TermColor::Named(None) => CellColor::Theme(
            if is_fg {
                ThemeColor::Foreground
            } else {
                ThemeColor::Background
            },
        ),
        TermColor::Spec(r, g, b) => CellColor::Rgb(r, g, b),
        TermColor::Indexed(i) => spec_indexed_color(i),
    }
}

/// Resolves a cell color (see `spec_convert_color`).
pub fn convert_color(color: TermColor, is_fg: bool) -> (r: CellColor)
    ensures
        r == spec_convert_color(color, is_fg),
{
    match color {
        TermColor::Named(Some(t)) => CellColor::Theme(t),
        TermColor::Named(None) => CellColor::Theme(default_named_color(is_fg)),
        TermColor::Spec(r, g, b) => CellColor::Rgb(r, g, b),
        TermColor::Indexed(i) => indexed_color(i),
    }
}

/// Every channel of the color cube is one of the six levels 0, 51, ..., 255
/// and the gray ramp stays within 8..=238.
pub proof fn lemma_indexed_color_levels(idx: u8)
    ensures
        16 <= idx < 232 ==> (spec_indexed_color(idx) matches CellColor::Rgb(r, g, b) && r % 51 == 0
            && g % 51 == 0 && b % 51 == 0),
        232 <= idx ==> (spec_indexed_color(idx) matches CellColor::Rgb(r, g, b) && r == g && g
            == b && 8 <= r <= 238),
{
}

/// The xterm 256-colour palette: entries 16..=231 are the 6x6x6 colour
/// cube, whose index counts the six levels (0, 51, ..., 255) of blue
/// fastest, then green, then red; entries 232..=255 are the gray ramp
/// 8, 18, ..., 238; the first sixteen are the theme's ANSI colours.
pub proof fn lemma_indexed_color_cube(idx: u8)
    ensures
        16 <= idx < 232 ==> (spec_indexed_color(idx) matches CellColor::Rgb(r, g, b) && r % 51
            == 0 && g % 51 == 0 && b % 51 == 0 && idx - 16 == 36 * (r / 51) + 6 * (g / 51) + b
            / 51),
        232 <= idx ==> (spec_indexed_color(idx) matches CellColor::Rgb(r, g, b) && r == g && g
            == b && r == 10 * (idx - 232) + 8),
        idx < 16 ==> spec_indexed_color(idx) == CellColor::Theme(ansi_color(idx)),
{
    if 16 <= idx < 232 {
        let i = (idx - 16) as int;
        let q = i / 36;
        let rem = i % 36;
        assert(i == 36 * q + rem && 0 <= rem < 36 && 0 <= q < 6);
        assert((i / 6) % 6 == rem / 6) by (nonlinear_arith)
            requires
                i == 36 * q + rem,
                0 <= rem < 36,
                0 <= q,
        ;
        assert(i % 6 == rem % 6) by (nonlinear_arith)
            requires
                i == 36 * q + rem,
                0 <= rem < 36,
                0 <= q,
        ;
    }
}

} // verus!
