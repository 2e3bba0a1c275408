use vstd::prelude::*;

verus! {

/// Stroke styles of a box-drawing character: left, right, top and bottom
/// arms (0 none, 1 light, 2 heavy, 3 double) and a kind tag (0 plain
/// strokes, 1 rounded corner, 3 dashed).
pub type BoxStyle = (u8, u8, u8, u8, u8);

/// The box-drawing table of the U+2500..=U+257F block.
pub open spec fn spec_box_style(code: u32) -> BoxStyle {
    match code {
            0x2500 => (1, 1, 0, 0, 0),
            0x2501 => (2, 2, 0, 0, 0),
            0x2502 => (0, 0, 1, 1, 0),
            0x2503 => (0, 0, 2, 2, 0),
            0x2504 | 0x2505 | 0x2508 | 0x2509 => (1, 1, 0, 0, 3),
            0x2506 | 0x2507 | 0x250A | 0x250B => (0, 0, 1, 1, 3),
            0x250C => (0, 1, 0, 1, 0),
            0x250D => (0, 2, 0, 1, 0),
            0x250E => (0, 1, 0, 2, 0),
            0x250F => (0, 2, 0, 2, 0),
            0x2510 => (1, 0, 0, 1, 0),
            0x2511 => (2, 0, 0, 1, 0),
            0x2512 => (1, 0, 0, 2, 0),
            0x2513 => (2, 0, 0, 2, 0),
            0x2514 => (0, 1, 1, 0, 0),
            0x2515 => (0, 2, 1, 0, 0),
            0x2516 => (0, 1, 2, 0, 0),
            0x2517 => (0, 2, 2, 0, 0),
            0x2518 => (1, 0, 1, 0, 0),
            0x2519 => (2, 0, 1, 0, 0),
            0x251A => (1, 0, 2, 0, 0),
            0x251B => (2, 0, 2, 0, 0),
            0x251C => (0, 1, 1, 1, 0),
            0x251D => (0, 2, 1, 1, 0),
            0x251E => (0, 1, 2, 1, 0),
            0x251F => (0, 1, 1, 2, 0),
            0x2520 => (0, 1, 2, 2, 0),
            0x2521 => (0, 2, 2, 1, 0),
            0x2522 => (0, 2, 1, 2, 0),
            0x2523 => (0, 2, 2, 2, 0),
            0x2524 => (1, 0, 1, 1, 0),
            0x2525 => (2, 0, 1, 1, 0),
            0x2526 => (1, 0, 2, 1, 0),
            0x2527 => (1, 0, 1, 2, 0),
            0x2528 => (1, 0, 2, 2, 0),
            0x2529 => (2, 0, 2, 1, 0),
            0x252A => (2, 0, 1, 2, 0),
            0x252B => (2, 0, 2, 2, 0),
            0x252C => (1, 1, 0, 1, 0),
            0x252D => (2, 1, 0, 1, 0),
            0x252E => (1, 2, 0, 1, 0),
            0x252F => (2, 2, 0, 1, 0),
            0x2530 => (1, 1, 0, 2, 0),
            0x2531 => (2, 1, 0, 2, 0),
            0x2532 => (1, 2, 0, 2, 0),
            0x2533 => (2, 2, 0, 2, 0),
            0x2534 => (1, 1, 1, 0, 0),
            0x2535 => (2, 1, 1, 0, 0),
            0x2536 => (1, 2, 1, 0, 0),
            0x2537 => (2, 2, 1, 0, 0),
            0x2538 => (1, 1, 2, 0, 0),
            0x2539 => (2, 1, 2, 0, 0),
            0x253A => (1, 2, 2, 0, 0),
            0x253B => (2, 2, 2, 0, 0),
            0x253C => (1, 1, 1, 1, 0),
            0x253D => (2, 1, 1, 1, 0),
            0x253E => (1, 2, 1, 1, 0),
            0x253F => (2, 2, 1, 1, 0),
            0x2540 => (1, 1, 2, 1, 0),
            0x2541 => (1, 1, 1, 2, 0),
            0x2542 => (1, 1, 2, 2, 0),
            0x2543 => (2, 1, 2, 1, 0),
            0x2544 => (1, 2, 2, 1, 0),
            0x2545 => (2, 1, 1, 2, 0),
            0x2546 => (1, 2, 1, 2, 0),
            0x2547 => (2, 2, 2, 1, 0),
            0x2548 => (2, 2, 1, 2, 0),
            0x2549 => (2, 1, 2, 2, 0),
            0x254A => (1, 2, 2, 2, 0),
            0x254B => (2, 2, 2, 2, 0),
            0x254C | 0x254D => (1, 1, 0, 0, 3),
            0x254E | 0x254F => (0, 0, 1, 1, 3),
            0x2550 => (3, 3, 0, 0, 0),
            0x2551 => (0, 0, 3, 3, 0),
            0x2552 => (0, 3, 0, 1, 0),
            0x2553 => (0, 1, 0, 3, 0),
            0x2554 => (0, 3, 0, 3, 0),
            0x2555 => (3, 0, 0, 1, 0),
            0x2556 => (1, 0, 0, 3, 0),
            0x2557 => (3, 0, 0, 3, 0),
            0x2558 => (0, 3, 1, 0, 0),
            0x2559 => (0, 1, 3, 0, 0),
            0x255A => (0, 3, 3, 0, 0),
            0x255B => (3, 0, 1, 0, 0),
            0x255C => (1, 0, 3, 0, 0),
            0x255D => (3, 0, 3, 0, 0),
            0x255E => (0, 3, 1, 1, 0),
            0x255F => (0, 1, 3, 3, 0),
            0x2560 => (0, 3, 3, 3, 0),
            0x2561 => (3, 0, 1, 1, 0),
            0x2562 => (1, 0, 3, 3, 0),
            0x2563 => (3, 0, 3, 3, 0),
            0x2564 => (3, 3, 0, 1, 0),
            0x2565 => (1, 1, 0, 3, 0),
            0x2566 => (3, 3, 0, 3, 0),
            0x2567 => (3, 3, 1, 0, 0),
            0x2568 => (1, 1, 3, 0, 0),
            0x2569 => (3, 3, 3, 0, 0),
            0x256A => (3, 3, 1, 1, 0),
            0x256B => (1, 1, 3, 3, 0),
            0x256C => (3, 3, 3, 3, 0),
            0x256D => (0, 1, 0, 1, 1),
            0x256E => (1, 0, 0, 1, 1),
            0x256F => (1, 0, 1, 0, 1),
            0x2570 => (0, 1, 1, 0, 1),
            0x2574 => (1, 0, 0, 0, 0),
            0x2575 => (0, 0, 1, 0, 0),
            0x2576 => (0, 1, 0, 0, 0),
            0x2577 => (0, 0, 0, 1, 0),
            0x2578 => (2, 0, 0, 0, 0),
            0x2579 => (0, 0, 2, 0, 0),
            0x257A => (0, 2, 0, 0, 0),
            0x257B => (0, 0, 0, 2, 0),
            0x257C => (1, 2, 0, 0, 0),
            0x257D => (0, 0, 1, 2, 0),
            0x257E => (2, 1, 0, 0, 0),
            0x257F => (0, 0, 2, 1, 0),
            _ => (0, 0, 0, 0, 0),
    }
}

/// `Some` exactly for the Box Drawing block, with the table's stroke styles;
/// the diagonals (U+2571..=U+2573) have no arms and are left to the font.
pub open spec fn spec_decode_box_drawing(ch: char) -> Option<BoxStyle> {
    let code = ch as u32;
    if 0x2500 <= code && code <= 0x257F && !(0x2571 <= code && code <= 0x2573) {
        Some(spec_box_style(code))
    } else {
        None
    }
}

/// Decodes a Box Drawing character (U+2500..=U+257F) into its arm styles.
pub fn decode_box_drawing(ch: char) -> (r: Option<BoxStyle>)
    ensures
        r == spec_decode_box_drawing(ch),
{
    let code = ch as u32;
    if !(0x2500 <= code && code <= 0x257F) || (0x2571 <= code && code <= 0x2573) {
        return None;
    }
    Some(match code {
        0x2500 => (1, 1, 0, 0, 0),
        0x2501 => (2, 2, 0, 0, 0),
        0x2502 => (0, 0, 1, 1, 0),
        0x2503 => (0, 0, 2, 2, 0),
        0x2504 | 0x2505 | 0x2508 | 0x2509 => (1, 1, 0, 0, 3),
        0x2506 | 0x2507 | 0x250A | 0x250B => (0, 0, 1, 1, 3),
        0x250C => (0, 1, 0, 1, 0),
        0x250D => (0, 2, 0, 1, 0),
        0x250E => (0, 1, 0, 2, 0),
        0x250F => (0, 2, 0, 2, 0),
        0x2510 => (1, 0, 0, 1, 0),
        0x2511 => (2, 0, 0, 1, 0),
        0x2512 => (1, 0, 0, 2, 0),
        0x2513 => (2, 0, 0, 2, 0),
        0x2514 => (0, 1, 1, 0, 0),
        0x2515 => (0, 2, 1, 0, 0),
        0x2516 => (0, 1, 2, 0, 0),
        0x2517 => (0, 2, 2, 0, 0),
        0x2518 => (1, 0, 1, 0, 0),
        0x2519 => (2, 0, 1, 0, 0),
        0x251A => (1, 0, 2, 0, 0),
        0x251B => (2, 0, 2, 0, 0),
        0x251C => (0, 1, 1, 1, 0),
        0x251D => (0, 2, 1, 1, 0),
        0x251E => (0, 1, 2, 1, 0),
        0x251F => (0, 1, 1, 2, 0),
        0x2520 => (0, 1, 2, 2, 0),
        0x2521 => (0, 2, 2, 1, 0),
        0x2522 => (0, 2, 1, 2, 0),
        0x2523 => (0, 2, 2, 2, 0),
        0x2524 => (1, 0, 1, 1, 0),
        0x2525 => (2, 0, 1, 1, 0),
        0x2526 => (1, 0, 2, 1, 0),
        0x2527 => (1, 0, 1, 2, 0),
        0x2528 => (1, 0, 2, 2, 0),
        0x2529 => (2, 0, 2, 1, 0),
        0x252A => (2, 0, 1, 2, 0),
        0x252B => (2, 0, 2, 2, 0),
        0x252C => (1, 1, 0, 1, 0),
        0x252D => (2, 1, 0, 1, 0),
        0x252E => (1, 2, 0, 1, 0),
        0x252F => (2, 2, 0, 1, 0),
        0x2530 => (1, 1, 0, 2, 0),
        0x2531 => (2, 1, 0, 2, 0),
        0x2532 => (1, 2, 0, 2, 0),
        0x2533 => (2, 2, 0, 2, 0),
        0x2534 => (1, 1, 1, 0, 0),
        0x2535 => (2, 1, 1, 0, 0),
        0x2536 => (1, 2, 1, 0, 0),
        0x2537 => (2, 2, 1, 0, 0),
        0x2538 => (1, 1, 2, 0, 0),
        0x2539 => (2, 1, 2, 0, 0),
        0x253A => (1, 2, 2, 0, 0),
        0x253B => (2, 2, 2, 0, 0),
        0x253C => (1, 1, 1, 1, 0),
        0x253D => (2, 1, 1, 1, 0),
        0x253E => (1, 2, 1, 1, 0),
        0x253F => (2, 2, 1, 1, 0),
        0x2540 => (1, 1, 2, 1, 0),
        0x2541 => (1, 1, 1, 2, 0),
        0x2542 => (1, 1, 2, 2, 0),
        0x2543 => (2, 1, 2, 1, 0),
        0x2544 => (1, 2, 2, 1, 0),
        0x2545 => (2, 1, 1, 2, 0),
        0x2546 => (1, 2, 1, 2, 0),
        0x2547 => (2, 2, 2, 1, 0),
        0x2548 => (2, 2, 1, 2, 0),
        0x2549 => (2, 1, 2, 2, 0),
        0x254A => (1, 2, 2, 2, 0),
        0x254B => (2, 2, 2, 2, 0),
        0x254C | 0x254D => (1, 1, 0, 0, 3),
        0x254E | 0x254F => (0, 0, 1, 1, 3),
        0x2550 => (3, 3, 0, 0, 0),
        0x2551 => (0, 0, 3, 3, 0),
        0x2552 => (0, 3, 0, 1, 0),
        0x2553 => (0, 1, 0, 3, 0),
        0x2554 => (0, 3, 0, 3, 0),
        0x2555 => (3, 0, 0, 1, 0),
        0x2556 => (1, 0, 0, 3, 0),
        0x2557 => (3, 0, 0, 3, 0),
        0x2558 => (0, 3, 1, 0, 0),
        0x2559 => (0, 1, 3, 0, 0),
        0x255A => (0, 3, 3, 0, 0),
        0x255B => (3, 0, 1, 0, 0),
        0x255C => (1, 0, 3, 0, 0),
        0x255D => (3, 0, 3, 0, 0),
        0x255E => (0, 3, 1, 1, 0),
        0x255F => (0, 1, 3, 3, 0),
        0x2560 => (0, 3, 3, 3, 0),
        0x2561 => (3, 0, 1, 1, 0),
        0x2562 => (1, 0, 3, 3, 0),
        0x2563 => (3, 0, 3, 3, 0),
        0x2564 => (3, 3, 0, 1, 0),
        0x2565 => (1, 1, 0, 3, 0),
        0x2566 => (3, 3, 0, 3, 0),
        0x2567 => (3, 3, 1, 0, 0),
        0x2568 => (1, 1, 3, 0, 0),
        0x2569 => (3, 3, 3, 0, 0),
        0x256A => (3, 3, 1, 1, 0),
        0x256B => (1, 1, 3, 3, 0),
        0x256C => (3, 3, 3, 3, 0),
        0x256D => (0, 1, 0, 1, 1),
        0x256E => (1, 0, 0, 1, 1),
        0x256F => (1, 0, 1, 0, 1),
        0x2570 => (0, 1, 1, 0, 1),
        0x2574 => (1, 0, 0, 0, 0),
        0x2575 => (0, 0, 1, 0, 0),
        0x2576 => (0, 1, 0, 0, 0),
        0x2577 => (0, 0, 0, 1, 0),
        0x2578 => (2, 0, 0, 0, 0),
        0x2579 => (0, 0, 2, 0, 0),
        0x257A => (0, 2, 0, 0, 0),
        0x257B => (0, 0, 0, 2, 0),
        0x257C => (1, 2, 0, 0, 0),
        0x257D => (0, 0, 1, 2, 0),
        0x257E => (2, 1, 0, 0, 0),
        0x257F => (0, 0, 2, 1, 0),
        _ => (0, 0, 0, 0, 0),
    })
}

/// Whether a codepoint lies in one of the Nerd Font icon ranges.
pub open spec fn spec_is_nerd_codepoint(code: u32) -> bool {
    ||| 0xE000 <= code <= 0xF8FF
    ||| 0x23FB <= code <= 0x23FE
    ||| code == 0x2B58
    ||| 0xF0000 <= code <= 0xFFFFD
    ||| 0x100000 <= code <= 0x10FFFD
}

/// Nerd Font icon codepoints: the BMP private-use area, its conventional
/// stragglers, and the supplementary private-use planes.
pub fn is_nerd_codepoint(code: u32) -> (r: bool)
    ensures
        r == spec_is_nerd_codepoint(code),
{
    (0xE000 <= code && code <= 0xF8FF) || (0x23FB <= code && code <= 0x23FE) || code == 0x2B58
        || (0xF0000 <= code && code <= 0xFFFFD) || (0x100000 <= code && code <= 0x10FFFD)
}


/// Emoji codepoints drawn from a color fallback font.
pub open spec fn spec_is_emoji_codepoint(code: u32) -> bool {
    ||| 0x1F300 <= code <= 0x1FAFF
    ||| 0x2600 <= code <= 0x27BF
    ||| 0x2300 <= code <= 0x23FF
    ||| 0x2B50 <= code <= 0x2B55
}

/// Whether a codepoint is laid out as a color emoji.
pub fn is_emoji_codepoint(code: u32) -> (r: bool)
    ensures
        r == spec_is_emoji_codepoint(code),
{
    (0x1F300 <= code && code <= 0x1FAFF) || (0x2600 <= code && code <= 0x27BF) || (0x2300 <= code
        && code <= 0x23FF) || (0x2B50 <= code && code <= 0x2B55)
}

/// The Geometric Shapes that are drawn as synthesized circles and squares.
pub open spec fn spec_geometric_shape_synthesized(ch: char) -> bool {
    let code = ch as u32;
    ||| code == 0x25A0
    ||| code == 0x25A1
    ||| code == 0x25AA
    ||| code == 0x25AB
    ||| code == 0x25CB
    ||| code == 0x25C9
    ||| code == 0x25CE
    ||| code == 0x25CF
    ||| code == 0x25E6
    ||| code == 0x25EF
}

/// Geometric Shapes synthesized as cell-centered circles and squares.
pub fn geometric_shape_synthesized(ch: char) -> (r: bool)
    ensures
        r == spec_geometric_shape_synthesized(ch),
{
    let code = ch as u32;
    code == 0x25A0 || code == 0x25A1 || code == 0x25AA || code == 0x25AB || code == 0x25CB || code
        == 0x25C9 || code == 0x25CE || code == 0x25CF || code == 0x25E6 || code == 0x25EF
}

/// A box-drawing character with a top or bottom arm.
pub open spec fn spec_box_char_has_vertical_strokes(ch: char) -> bool {
    match spec_decode_box_drawing(ch) {
        Some(st) => st.2 > 0 || st.3 > 0,
        None => false,
    }
}

/// True for box-drawing chars with vertical strokes: repeated spans of these
/// render one stroke per cell. Horizontal strokes, dashed ones included,
/// are not.
pub fn box_char_has_vertical_strokes(ch: char) -> (r: bool)
    ensures
        r == spec_box_char_has_vertical_strokes(ch),
{
    match decode_box_drawing(ch) {
        Some((_, _, top, bottom, _)) => top > 0 || bottom > 0,
        None => false,
    }
}

/// Glyphs laid out once per cell when a span repeats them.
pub open spec fn spec_synthesized_per_cell(ch: char) -> bool {
    spec_geometric_shape_synthesized(ch) || spec_box_char_has_vertical_strokes(ch)
}

/// Glyphs that must be laid out once per cell when a pure span repeats them;
/// horizontal-only strokes and block fills stay one element across the span.
pub fn synthesized_per_cell(ch: char) -> (r: bool)
    ensures
        r == spec_synthesized_per_cell(ch),
{
    geometric_shape_synthesized(ch) || box_char_has_vertical_strokes(ch)
}

/// A Block Elements glyph (U+2580..=U+259F) as filled regions of the cell.
#[derive(Clone, Copy, Debug, PartialEq, Eq, Structural)]
pub enum BlockShape {
    /// The whole cell.
    Full,
    /// The upper half.
    UpperHalf,
    /// The lower half.
    LowerHalf,
    /// The left half.
    LeftHalf,
    /// The right half.
    RightHalf,
    /// The given number of eighths (1..=7), filled from the bottom.
    LowerEighths(u8),
    /// The given number of eighths (1..=7), filled from the left.
    LeftEighths(u8),
    /// A translucent fill, in quarters of opacity (1..=3).
    Shade(u8),
    /// One eighth at the top.
    UpperEighth,
    /// One eighth at the right.
    RightEighth,
    /// Quadrants filled: top-left, top-right, bottom-left, bottom-right.
    Quadrants(bool, bool, bool, bool),
}

/// A synthesized Geometric Shapes glyph, centered on the cell box.
#[derive(Clone, Copy, Debug, PartialEq, Eq, Structural)]
pub enum ShapeKind {
    WhiteCircle,
    LargeCircle,
    BlackCircle,
    WhiteBullet,
    Fisheye,
    Bullseye,
    BlackSquare,
    WhiteSquare,
    SmallBlackSquare,
    SmallWhiteSquare,
}

/// How a cell glyph is drawn geometrically instead of from a font.
#[derive(Clone, Copy, Debug, PartialEq, Eq, Structural)]
pub enum CellShape {
    /// A Block Elements fill.
    Block(BlockShape),
    /// Box-drawing strokes with the given arm styles.
    BoxDrawing(u8, u8, u8, u8, u8),
    /// A synthesized circle or square.
    Shape(ShapeKind),
}

/// The Block Elements table.
pub open spec fn spec_block_shape(code: u32) -> BlockShape
    recommends
        0x2580 <= code <= 0x259F,
{
    if code == 0x2588 {
        BlockShape::Full
    } else if code == 0x2580 {
        BlockShape::UpperHalf
    } else if code == 0x2584 {
        BlockShape::LowerHalf
    } else if code == 0x258C {
        BlockShape::LeftHalf
    } else if code == 0x2590 {
        BlockShape::RightHalf
    } else if 0x2581 <= code <= 0x2587 {
        BlockShape::LowerEighths((code - 0x2580) as u8)
    } else if 0x2589 <= code <= 0x258F {
        BlockShape::LeftEighths((8 - (code - 0x2588)) as u8)
    } else if 0x2591 <= code <= 0x2593 {
        BlockShape::Shade((code - 0x2590) as u8)
    } else if code == 0x2594 {
        BlockShape::UpperEighth
    } else if code == 0x2595 {
        BlockShape::RightEighth
    } else if code == 0x2596 {
        BlockShape::Quadrants(false, false, true, false)
    } else if code == 0x2597 {
        BlockShape::Quadrants(false, false, false, true)
    } else if code == 0x2598 {
        BlockShape::Quadrants(true, false, false, false)
    } else if code == 0x2599 {
        BlockShape::Quadrants(true, false, true, true)
    } else if code == 0x259A {
        BlockShape::Quadrants(true, false, false, true)
    } else if code == 0x259B {
        BlockShape::Quadrants(true, true, true, false)
    } else if code == 0x259C {
        BlockShape::Quadrants(true, true, false, true)
    } else if code == 0x259D {
        BlockShape::Quadrants(false, true, false, false)
    } else if code == 0x259E {
        BlockShape::Quadrants(false, true, true, false)
    } else {
        BlockShape::Quadrants(false, true, true, true)
    }
}

/// The synthesized Geometric Shapes table.
pub open spec fn spec_shape_kind(code: u32) -> Option<ShapeKind> {
    if code == 0x25CB {
        Some(ShapeKind::WhiteCircle)
    } else if code == 0x25EF {
        Some(ShapeKind::LargeCircle)
    } else if code == 0x25CF {
        Some(ShapeKind::BlackCircle)
    } else if code == 0x25E6 {
        Some(ShapeKind::WhiteBullet)
    } else if code == 0x25C9 {
        Some(ShapeKind::Fisheye)
    } else if code == 0x25CE {
        Some(ShapeKind::Bullseye)
    } else if code == 0x25A0 {
        Some(ShapeKind::BlackSquare)
    } else if code == 0x25A1 {
        Some(ShapeKind::WhiteSquare)
    } else if code == 0x25AA {
        Some(ShapeKind::SmallBlackSquare)
    } else if code == 0x25AB {
        Some(ShapeKind::SmallWhiteSquare)
    } else {
        None
    }
}

/// Which geometric drawing, if any, stands for a cell glyph: Block Elements
/// first, then Box Drawing (not its diagonals, which the font draws), then
/// the synthesized Geometric Shapes.
pub open spec fn spec_geometric_cell_shape(ch: char) -> Option<CellShape> {
    let code = ch as u32;
    if 0x2580 <= code <= 0x259F {
        Some(CellShape::Block(spec_block_shape(code)))
    } else {
        match spec_decode_box_drawing(ch) {
            Some(st) => Some(CellShape::BoxDrawing(st.0, st.1, st.2, st.3, st.4)),
            None => match spec_shape_kind(code) {
                Some(k) => Some(CellShape::Shape(k)),
                None => None,
            },
        }
    }
}

fn block_shape(code: u32) -> (r: BlockShape)
    requires
        0x2580 <= code <= 0x259F,
    ensures
        r == spec_block_shape(code),
{
    if code == 0x2588 {
        BlockShape::Full
    } else if code == 0x2580 {
        BlockShape::UpperHalf
    } else if code == 0x2584 {
        BlockShape::LowerHalf
    } else if code == 0x258C {
        BlockShape::LeftHalf
    } else if code == 0x2590 {
        BlockShape::RightHalf
    } else if 0x2581 <= code && code <= 0x2587 {
        BlockShape::LowerEighths((code - 0x2580) as u8)
    } else if 0x2589 <= code && code <= 0x258F {
        BlockShape::LeftEighths((8 - (code - 0x2588)) as u8)
    } else if 0x2591 <= code && code <= 0x2593 {
        BlockShape::Shade((code - 0x2590) as u8)
    } else if code == 0x2594 {
        BlockShape::UpperEighth
    } else if code == 0x2595 {
        BlockShape::RightEighth
    } else if code == 0x2596 {
        BlockShape::Quadrants(false, false, true, false)
    } else if code == 0x2597 {
        BlockShape::Quadrants(false, false, false, true)
    } else if code == 0x2598 {
        BlockShape::Quadrants(true, false, false, false)
    } else if code == 0x2599 {
        BlockShape::Quadrants(true, false, true, true)
    } else if code == 0x259A {
        BlockShape::Quadrants(true, false, false, true)
    } else if code == 0x259B {
        BlockShape::Quadrants(true, true, true, false)
    } else if code == 0x259C {
        BlockShape::Quadrants(true, true, false, true)
    } else if code == 0x259D {
        BlockShape::Quadrants(false, true, false, false)
    } else if code == 0x259E {
        BlockShape::Quadrants(false, true, true, false)
    } else {
        BlockShape::Quadrants(false, true, true, true)
    }
}

fn shape_kind(code: u32) -> (r: Option<ShapeKind>)
    ensures
        r == spec_shape_kind(code),
{
    if code == 0x25CB {
        Some(ShapeKind::WhiteCircle)
    } else if code == 0x25EF {
        Some(ShapeKind::LargeCircle)
    } else if code == 0x25CF {
        Some(ShapeKind::BlackCircle)
    } else if code == 0x25E6 {
        Some(ShapeKind::WhiteBullet)
    } else if code == 0x25C9 {
        Some(ShapeKind::Fisheye)
    } else if code == 0x25CE {
        Some(ShapeKind::Bullseye)
    } else if code == 0x25A0 {
        Some(ShapeKind::BlackSquare)
    } else if code == 0x25A1 {
        Some(ShapeKind::WhiteSquare)
    } else if code == 0x25AA {
        Some(ShapeKind::SmallBlackSquare)
    } else if code == 0x25AB {
        Some(ShapeKind::SmallWhiteSquare)
    } else {
        None
    }
}

/// Classifies a cell glyph for geometric rendering: the part of the cell
/// renderer that decides what to draw, before any pixel arithmetic.
pub fn geometric_cell_shape(ch: char) -> (r: Option<CellShape>)
    ensures
        r == spec_geometric_cell_shape(ch),
{
    let code = ch as u32;
    if 0x2580 <= code && code <= 0x259F {
        return Some(CellShape::Block(block_shape(code)));
    }
    if let Some((l, r, t, b, k)) = decode_box_drawing(ch) {
        return Some(CellShape::BoxDrawing(l, r, t, b, k));
    }
    match shape_kind(code) {
        Some(k) => Some(CellShape::Shape(k)),
        None => None,
    }
}

/// Every glyph laid out once per cell has a geometric drawing; the
/// synthesized shapes are exactly the glyphs classified as `Shape`.
pub proof fn lemma_per_cell_glyphs_are_drawn(ch: char)
    ensures
        spec_synthesized_per_cell(ch) ==> spec_geometric_cell_shape(ch) is Some,
        spec_geometric_shape_synthesized(ch) <==> (spec_geometric_cell_shape(ch) matches Some(
            CellShape::Shape(_),
        )),
        spec_box_char_has_vertical_strokes(ch) ==> (spec_geometric_cell_shape(ch) matches Some(
            CellShape::BoxDrawing(_, _, t, b, _),
        ) && (t > 0 || b > 0)),
{
}

/// The arms of a corner named "DOWN AND RIGHT", "DOWN AND LEFT", "UP AND
/// RIGHT", "UP AND LEFT" (`k` = 0..3): left, right, up, down.
pub open spec fn corner_arms(k: int) -> (bool, bool, bool, bool) {
    if k == 0 {
        (false, true, false, true)
    } else if k == 1 {
        (true, false, false, true)
    } else if k == 2 {
        (false, true, true, false)
    } else {
        (true, false, true, false)
    }
}

/// The arms of a tee named "VERTICAL AND RIGHT", "VERTICAL AND LEFT", "DOWN
/// AND HORIZONTAL", "UP AND HORIZONTAL" (`k` = 0..3).
pub open spec fn tee_arms(k: int) -> (bool, bool, bool, bool) {
    if k == 0 {
        (false, true, true, true)
    } else if k == 1 {
        (true, false, true, true)
    } else if k == 2 {
        (true, true, false, true)
    } else {
        (true, true, true, false)
    }
}

/// The arms (left, right, up, down) that the Unicode names of the Box
/// Drawing block give each character, by the block's layout: horizontal and
/// vertical lines and dashes; corners in fours (light and heavy mixes);
/// tees in eights; the crosses; the double-line corners and tees in threes
/// (single/double mixes); the arcs; the half lines.
pub open spec fn named_arms(code: int) -> (bool, bool, bool, bool) {
    let horizontal = (true, true, false, false);
    let vertical = (false, false, true, true);
    if code == 0x2500 || code == 0x2501 || code == 0x2504 || code == 0x2505 || code == 0x2508
        || code == 0x2509 || code == 0x254C || code == 0x254D || code == 0x2550 || code == 0x257C
        || code == 0x257E {
        horizontal
    } else if code == 0x2502 || code == 0x2503 || code == 0x2506 || code == 0x2507 || code
        == 0x250A || code == 0x250B || code == 0x254E || code == 0x254F || code == 0x2551 || code
        == 0x257D || code == 0x257F {
        vertical
    } else if 0x250C <= code <= 0x251B {
        corner_arms((code - 0x250C) / 4)
    } else if 0x251C <= code <= 0x253B {
        tee_arms((code - 0x251C) / 8)
    } else if 0x253C <= code <= 0x254B || 0x256A <= code <= 0x256C {
        (true, true, true, true)
    } else if 0x2552 <= code <= 0x255D {
        corner_arms((code - 0x2552) / 3)
    } else if 0x255E <= code <= 0x2569 {
        tee_arms((code - 0x255E) / 3)
    } else if code == 0x256D {
        corner_arms(0)
    } else if code == 0x256E {
        corner_arms(1)
    } else if code == 0x256F {
        corner_arms(3)
    } else if code == 0x2570 {
        corner_arms(2)
    } else if code == 0x2574 || code == 0x2578 {
        (true, false, false, false)
    } else if code == 0x2575 || code == 0x2579 {
        (false, false, true, false)
    } else if code == 0x2576 || code == 0x257A {
        (false, true, false, false)
    } else {
        (false, false, false, true)
    }
}

/// Which arms a decoded style draws.
pub open spec fn drawn_arms(st: BoxStyle) -> (bool, bool, bool, bool) {
    (st.0 > 0, st.1 > 0, st.2 > 0, st.3 > 0)
}

/// The one stroke weight of a character whose name gives all its strokes
/// one weight: 1 for LIGHT, 2 for HEAVY, 3 for DOUBLE (dashes aside).
pub open spec fn named_weight(code: int) -> Option<u8> {
    if code == 0x2500 || code == 0x2502 || code == 0x250C || code == 0x2510 || code == 0x2514
        || code == 0x2518 || code == 0x251C || code == 0x2524 || code == 0x252C || code == 0x2534
        || code == 0x253C || (0x256D <= code <= 0x2570) || (0x2574 <= code <= 0x2577) {
        Some(1)
    } else if code == 0x2501 || code == 0x2503 || code == 0x250F || code == 0x2513 || code
        == 0x2517 || code == 0x251B || code == 0x2523 || code == 0x252B || code == 0x2533 || code
        == 0x253B || code == 0x254B || (0x2578 <= code <= 0x257B) {
        Some(2)
    } else if code == 0x2550 || code == 0x2551 || code == 0x2554 || code == 0x2557 || code
        == 0x255A || code == 0x255D || code == 0x2560 || code == 0x2563 || code == 0x2566 || code
        == 0x2569 || code == 0x256C {
        Some(3)
    } else {
        None
    }
}

/// Which arms (left, right, up, down) the name of a Box Drawing character
/// draws heavy (in the light/heavy part of the block) or double (in the
/// single/double part), by the block's layout. Corners come in fours: both
/// light, horizontal heavy, vertical heavy, both heavy. The "VERTICAL AND
/// RIGHT/LEFT" tees come in eights over the side arm S and the up and down
/// arms: none, S, up, down, up and down, S and up, S and down, all; the
/// "DOWN/UP AND HORIZONTAL" tees over the left arm, the right arm and the
/// stem S: none, left, right, both, S, S and left, S and right, all. The
/// double-line characters come in threes: horizontal double, vertical
/// double, all double.
pub open spec fn named_strong(code: int) -> (bool, bool, bool, bool) {
    let all = (true, true, true, true);
    let none = (false, false, false, false);
    if code == 0x2501 || code == 0x2503 || code == 0x2550 || code == 0x2551 || 0x2578 <= code
        <= 0x257B {
        all
    } else if 0x250C <= code <= 0x251B {
        let j = (code - 0x250C) % 4;
        let h = j == 1 || j == 3;
        let v = j >= 2;
        (h, h, v, v)
    } else if 0x251C <= code <= 0x252B {
        let side_left = code >= 0x2524;
        let j = (code - 0x251C) % 8;
        let s = j == 1 || j >= 5;
        let up = j == 2 || j == 4 || j == 5 || j == 7;
        let down = j == 3 || j == 4 || j == 6 || j == 7;
        (side_left && s, !side_left && s, up, down)
    } else if 0x252C <= code <= 0x253B {
        let stem_up = code >= 0x2534;
        let j = (code - 0x252C) % 8;
        let left = j % 2 == 1;
        let right = j == 2 || j == 3 || j == 6 || j == 7;
        let s = j >= 4;
        (left, right, stem_up && s, !stem_up && s)
    } else if 0x253C <= code <= 0x254B {
        let j = code - 0x253C;
        let left = j == 1 || j == 3 || j == 7 || j == 9 || j == 11 || j == 12 || j == 13 || j == 15;
        let right = j == 2 || j == 3 || j == 8 || j == 10 || j == 11 || j == 12 || j == 14 || j
            == 15;
        let up = j == 4 || j == 6 || j == 7 || j == 8 || j == 11 || j == 13 || j == 14 || j == 15;
        let down = j == 5 || j == 6 || j == 9 || j == 10 || j == 12 || j == 13 || j == 14 || j
            == 15;
        (left, right, up, down)
    } else if 0x2552 <= code <= 0x2569 || 0x256A <= code <= 0x256C {
        let j = if code <= 0x2569 {
            (code - 0x2552) % 3
        } else {
            code - 0x256A
        };
        let h = j == 0 || j == 2;
        let v = j == 1 || j == 2;
        (h, h, v, v)
    } else if code == 0x257C {
        (false, true, false, false)
    } else if code == 0x257D {
        (false, false, false, true)
    } else if code == 0x257E {
        (true, false, false, false)
    } else if code == 0x257F {
        (false, false, true, false)
    } else {
        none
    }
}

/// One arm's weight: none when absent, else the strong weight when the name
/// makes it heavy or double, light otherwise.
pub open spec fn arm_weight(present: bool, strong: bool, w: u8) -> u8 {
    if !present {
        0
    } else if strong {
        w
    } else {
        1
    }
}

/// The arm weights a character's name gives it: 2 for heavy in
/// U+2500..=U+254B and the half lines, 3 for double in U+2550..=U+256C.
pub open spec fn named_weights(code: int) -> (u8, u8, u8, u8) {
    let a = named_arms(code);
    let h = named_strong(code);
    let w: u8 = if 0x2550 <= code <= 0x256C {
        3
    } else {
        2
    };
    (arm_weight(a.0, h.0, w), arm_weight(a.1, h.1, w), arm_weight(a.2, h.2, w), arm_weight(a.3, h.3, w))
}

/// The dashed lines (their weight is drawn as light).
pub open spec fn is_dash_code(code: int) -> bool {
    (0x2504 <= code <= 0x250B) || (0x254C <= code <= 0x254F)
}

/// What the table says of one code of the block agrees with its name.
pub open spec fn box_entry_follows_name(code: int) -> bool {
    let st = spec_box_style(code as u32);
    &&& drawn_arms(st) == named_arms(code)
    &&& (named_weight(code) matches Some(w) ==> (st.0 == 0 || st.0 == w) && (st.1 == 0 || st.1
        == w) && (st.2 == 0 || st.2 == w) && (st.3 == 0 || st.3 == w))
    &&& (code < 0x2550 ==> st.0 <= 2 && st.1 <= 2 && st.2 <= 2 && st.3 <= 2)
    &&& (0x2550 <= code <= 0x256C ==> st.0 != 2 && st.1 != 2 && st.2 != 2 && st.3 != 2)
    &&& (!is_dash_code(code) ==> (st.0, st.1, st.2, st.3) == named_weights(code))
}

/// Box-drawing characters decode as their Unicode names say: each one
/// (the diagonals aside, left to the font) gets exactly the arms its name
/// gives it, so a tee ("... AND RIGHT", "... AND LEFT", "DOWN AND ...",
/// "UP AND ...") never decodes as the cross; a character drawn in one
/// weight gets that weight on every arm, and every other one (the dashes
/// aside, drawn light) the weights its name gives each arm (see
/// `named_strong`); the single lines never come out double and the
/// double-line ones never heavy.
pub proof fn lemma_box_drawing_follows_names(ch: char)
    requires
        0x2500 <= ch as u32 <= 0x257F,
        !(0x2571 <= ch as u32 <= 0x2573),
    ensures
        spec_decode_box_drawing(ch) matches Some(st) && drawn_arms(st) == named_arms(ch as int),
        spec_decode_box_drawing(ch) matches Some(st) && (named_weight(ch as int) matches Some(w)
            ==> (st.0 == 0 || st.0 == w) && (st.1 == 0 || st.1 == w) && (st.2 == 0 || st.2 == w)
            && (st.3 == 0 || st.3 == w)),
        !is_dash_code(ch as int) ==> (spec_decode_box_drawing(ch) matches Some(st) && (st.0, st.1,
        st.2, st.3) == named_weights(ch as int)),
        (0x251C <= ch as u32 <= 0x253B || 0x255E <= ch as u32 <= 0x2569) ==> (
        spec_decode_box_drawing(ch) matches Some(st) && drawn_arms(st) != drawn_arms(
            spec_box_style(0x253C),
        )),
{
    assert(box_entry_follows_name(ch as int));
}

} // verus!
