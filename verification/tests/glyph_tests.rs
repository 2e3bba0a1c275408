use fastty::glyphs::{
    decode_box_drawing, geometric_cell_shape, geometric_shape_synthesized, is_emoji_codepoint,
    is_nerd_codepoint, synthesized_per_cell, BlockShape, CellShape, ShapeKind,
};

#[test]
fn test_is_nerd_codepoint_ranges() {
    // Powerline, PUA icons, Font Awesome range.
    assert!(is_nerd_codepoint(0xE0A0));
    assert!(is_nerd_codepoint(0xE62E));
    assert!(is_nerd_codepoint(0xF013));
    assert!(is_nerd_codepoint(0x23FB));
    assert!(is_nerd_codepoint(0x2B58));
    // Ordinary text is not nerd.
    assert!(!is_nerd_codepoint('A' as u32));
    assert!(!is_nerd_codepoint('─' as u32));
    assert!(!is_nerd_codepoint('●' as u32));
}

#[test]
fn test_geometric_block_cells_return_elements() {
    let block_chars = ['█', '▀', '▄', '▌', '▐', '░', '▒', '▓', '▖', '▗', '▘', '▙', '▚', '▛', '▜', '▝', '▞', '▟'];
    for ch in block_chars {
        let res = geometric_cell_shape(ch);
        assert!(res.is_some(), "Character {:?} (U+{:04X}) must produce a geometric element", ch, ch as u32);
    }
    let box_chars = ['─', '│', '┌', '┐', '└', '┘', '├', '┤', '┬', '┴', '┼', '╭', '╮', '╯', '╰', '═', '║'];
    for ch in box_chars {
        let res = geometric_cell_shape(ch);
        assert!(res.is_some(), "Box character {:?} (U+{:04X}) must produce a geometric element", ch, ch as u32);
    }
}

#[test]
fn test_geometric_shapes_synthesized() {
    let shape_chars = ['○', '◯', '●', '◦', '◉', '◎', '■', '□', '▪', '▫'];
    for ch in shape_chars {
        let res = geometric_cell_shape(ch);
        assert!(res.is_some(), "Shape {:?} (U+{:04X}) must produce a geometric element", ch, ch as u32);
    }
    let res = geometric_cell_shape('◯');
    assert!(res.is_some());
}

#[test]
fn test_per_cell_synthesis_classification() {
    // Vertical-stroke box chars render once per cell
    assert!(synthesized_per_cell('│'));
    assert!(synthesized_per_cell('├'));
    assert!(synthesized_per_cell('┼'));
    assert!(synthesized_per_cell('║'));
    // Synthesized shapes render once per cell
    assert!(synthesized_per_cell('○'));
    assert!(synthesized_per_cell('●'));
    // Horizontal-only strokes and block fills stay single-element
    assert!(!synthesized_per_cell('─'));
    assert!(!synthesized_per_cell('━'));
    assert!(!synthesized_per_cell('═'));
    assert!(!synthesized_per_cell('█'));
    assert!(!synthesized_per_cell('░'));
}

#[test]
fn test_decode_box_drawing_styles() {
    // Light horizontal and vertical
    assert_eq!(decode_box_drawing('─'), Some((1, 1, 0, 0, 0)));
    assert_eq!(decode_box_drawing('│'), Some((0, 0, 1, 1, 0)));

    // Light corners
    assert_eq!(decode_box_drawing('┌'), Some((0, 1, 0, 1, 0)));
    assert_eq!(decode_box_drawing('┐'), Some((1, 0, 0, 1, 0)));
    assert_eq!(decode_box_drawing('└'), Some((0, 1, 1, 0, 0)));
    assert_eq!(decode_box_drawing('┘'), Some((1, 0, 1, 0, 0)));

    // Round corners
    assert_eq!(decode_box_drawing('╭'), Some((0, 1, 0, 1, 1)));
    assert_eq!(decode_box_drawing('╮'), Some((1, 0, 0, 1, 1)));
    assert_eq!(decode_box_drawing('╯'), Some((1, 0, 1, 0, 1)));
    assert_eq!(decode_box_drawing('╰'), Some((0, 1, 1, 0, 1)));
}

#[test]
fn test_opencode_banner_block_fixtures() {
    let banner_lines = [
        "  ▄████▄   ██████  ███████ ███    ██  ██████  ",
        " ██      ██ ██   ██ ██      ████   ██ ██      ",
        " ██      ██ ██████  █████   ██ ██  ██ ██      ",
        " ██      ██ ██      ██      ██  ██ ██ ██      ",
        "  ▀████▀▀   ██      ███████ ██   ████  ██████ ",
    ];
    for line in banner_lines {
        for ch in line.chars() {
            if ch == ' ' {
                continue;
            }
            let res = geometric_cell_shape(ch);
            assert!(res.is_some(), "Banner character {:?} must render geometrically", ch);
        }
    }
}

#[test]
fn test_viewport_scissor_clamping_logic() {
    let target_cols = 80;
    let cell_cols = 2; // Wide char

    // Cells within bounds
    let col_in = 78;
    assert!(col_in < target_cols);
    let end_col = (col_in + cell_cols).min(target_cols);
    assert_eq!(end_col, 80);

    // Cells outside bounds
    let col_out = 80;
    assert!(col_out >= target_cols);
    let col_far = 95;
    assert!(col_far >= target_cols);
}

#[test]
fn test_cursor_quad_geometry_matches_cell_grid() {
    let cell_w: f32 = 9.0;
    let line_h: f32 = 18.0;

    for col in 0..100 {
        let x_start = (col as f32 * cell_w).round();
        let x_end = ((col + 1) as f32 * cell_w).round();
        let quad_w = (x_end - x_start).max(cell_w);

        let span_w = ((col + 1) as f32 * cell_w).round() - (col as f32 * cell_w).round();

        assert_eq!(quad_w, span_w.max(cell_w));
        assert!(quad_w >= cell_w);
        assert!(line_h > 0.0);
    }
}

#[test]
fn block_shapes_classify_fills_eighths_and_quadrants() {
    assert_eq!(geometric_cell_shape('█'), Some(CellShape::Block(BlockShape::Full)));
    assert_eq!(geometric_cell_shape('▁'), Some(CellShape::Block(BlockShape::LowerEighths(1))));
    assert_eq!(geometric_cell_shape('▇'), Some(CellShape::Block(BlockShape::LowerEighths(7))));
    assert_eq!(geometric_cell_shape('▉'), Some(CellShape::Block(BlockShape::LeftEighths(7))));
    assert_eq!(geometric_cell_shape('▏'), Some(CellShape::Block(BlockShape::LeftEighths(1))));
    assert_eq!(geometric_cell_shape('▒'), Some(CellShape::Block(BlockShape::Shade(2))));
    assert_eq!(
        geometric_cell_shape('▙'),
        Some(CellShape::Block(BlockShape::Quadrants(true, false, true, true)))
    );
    assert_eq!(geometric_cell_shape('●'), Some(CellShape::Shape(ShapeKind::BlackCircle)));
    assert_eq!(geometric_cell_shape('┼'), Some(CellShape::BoxDrawing(1, 1, 1, 1, 0)));
    assert_eq!(geometric_cell_shape('╳'), None);
    assert_eq!(geometric_cell_shape('A'), None);
    assert_eq!(geometric_cell_shape('◆'), None);
}

#[test]
fn box_drawing_block_edges_and_dashes() {
    assert_eq!(decode_box_drawing('\u{24FF}'), None);
    assert_eq!(decode_box_drawing('\u{2580}'), None);
    assert_eq!(decode_box_drawing('┄'), Some((1, 1, 0, 0, 3)));
    assert_eq!(decode_box_drawing('┆'), Some((0, 0, 1, 1, 3)));
    assert_eq!(decode_box_drawing('╬'), Some((3, 3, 3, 3, 0)));
    assert_eq!(decode_box_drawing('╿'), Some((0, 0, 2, 1, 0)));
}

#[test]
fn emoji_and_shape_codepoints() {
    assert!(is_emoji_codepoint(0x1F600));
    assert!(is_emoji_codepoint(0x2B50));
    assert!(!is_emoji_codepoint('a' as u32));
    assert!(geometric_shape_synthesized('◎'));
    assert!(!geometric_shape_synthesized('◆'));
}

#[test]
fn dashed_strokes_follow_their_direction() {
    for ch in ['┄', '┅', '┈', '┉', '╌', '╍'] {
        assert!(!synthesized_per_cell(ch), "{ch} is horizontal");
    }
    for ch in ['┆', '┇', '┊', '┋', '╎', '╏'] {
        assert!(synthesized_per_cell(ch), "{ch} is vertical");
    }
}

#[test]
fn dashes_have_arms_along_their_direction_and_diagonals_use_the_font() {
    for ch in ['┄', '┅', '┈', '┉', '╌', '╍'] {
        assert_eq!(decode_box_drawing(ch), Some((1, 1, 0, 0, 3)), "{ch}");
    }
    for ch in ['┆', '┇', '┊', '┋', '╎', '╏'] {
        assert_eq!(decode_box_drawing(ch), Some((0, 0, 1, 1, 3)), "{ch}");
    }
    for ch in ['╱', '╲', '╳'] {
        assert_eq!(decode_box_drawing(ch), None);
        assert_eq!(geometric_cell_shape(ch), None);
    }
}
