use fastty::colors::{CellColor, TermColor, ThemeColor};
use fastty::rows::{
    row_lines, search_highlights, visible_images, ImagePlacement, RenderCell, VisibleImage,
};
use fastty::spans::StyledSpan;

fn cell(row: i32, col: usize, ch: char) -> RenderCell {
    RenderCell {
        row,
        col,
        ch,
        fg: TermColor::Named(Some(ThemeColor::Foreground)),
        bg: TermColor::Named(Some(ThemeColor::Background)),
        inverse: false,
        bold: false,
        underline: false,
        wide: false,
        wide_spacer: false,
    }
}

fn texts(row: &[StyledSpan<CellColor, f32>]) -> Vec<String> {
    row.iter().map(|s| s.text.clone()).collect()
}

#[test]
fn row_lines_groups_cells_into_styled_spans() {
    let mut red = cell(0, 3, 'X');
    red.fg = TermColor::Spec(255, 0, 0);
    let mut wide = cell(2, 2, '中');
    wide.wide = true;
    let mut spacer = cell(2, 3, ' ');
    spacer.wide_spacer = true;
    let cells = vec![
        cell(0, 0, 'h'),
        cell(0, 1, 'i'),
        cell(0, 2, ' '),
        red,
        cell(0, 4, ' '),
        cell(0, 5, ' '),
        cell(0, 6, 'z'),
        cell(2, 0, '─'),
        cell(2, 1, '─'),
        wide,
        spacer,
        cell(2, 4, 'a'),
    ];
    let lines: Vec<Vec<StyledSpan<CellColor, f32>>> = row_lines(&cells, None, 6);
    assert_eq!(lines.len(), 3);
    assert_eq!(texts(&lines[0]), vec!["hi ", "X"]);
    assert_eq!(lines[0][0].fg, CellColor::Theme(ThemeColor::Foreground));
    assert_eq!(lines[0][0].bg, None);
    assert_eq!(lines[0][1].fg, CellColor::Rgb(255, 0, 0));
    assert_eq!((lines[0][1].start_col, lines[0][1].end_col), (3, 4));
    assert!(lines[1].is_empty());
    assert_eq!(texts(&lines[2]), vec!["──", "中a"]);
    assert_eq!(lines[2][1].char_cols, vec![2, 4]);
    assert_eq!((lines[2][1].start_col, lines[2][1].end_col), (2, 5));
    assert!(lines[2].iter().all(|s| s.emoji_scale.is_none()));
    for row in &lines {
        for s in row {
            assert!(!s.text.is_empty());
            assert!(s.char_cols.len() >= s.text.chars().count());
        }
    }

    let hovered: Vec<Vec<StyledSpan<CellColor, f32>>> = row_lines(&cells, Some((2, 4, 5)), 6);
    assert_eq!(texts(&hovered[2]), vec!["──", "中", "a"]);
    assert!(hovered[2][2].is_underline);
}

#[test]
fn row_lines_swaps_inverse_colors_and_marks_emoji() {
    let mut inv = cell(0, 0, 'a');
    inv.inverse = true;
    let mut emoji = cell(0, 1, '😀');
    emoji.wide = true;
    let mut tail = cell(0, 3, ' ');
    tail.bg = TermColor::Indexed(1);
    let lines: Vec<Vec<StyledSpan<CellColor, f32>>> = row_lines(&vec![inv, emoji, tail], None, 4);
    assert_eq!(lines.len(), 1);
    let row = &lines[0];
    assert_eq!(texts(row), vec!["a", "😀", " "]);
    assert_eq!(row[0].fg, CellColor::Theme(ThemeColor::Background));
    assert_eq!(row[0].bg, Some(CellColor::Theme(ThemeColor::Foreground)));
    assert!(row[1].is_emoji && !row[1].is_nerd);
    assert_eq!((row[1].start_col, row[1].end_col), (1, 3));
    assert_eq!(row[2].bg, Some(CellColor::Theme(ThemeColor::Red)));
    assert_eq!(row_lines::<f32>(&vec![], None, 4).len(), 1);
}

fn plain(text: &str, start_col: usize) -> StyledSpan<CellColor, f32> {
    let n = text.chars().count();
    StyledSpan {
        text: text.to_string(),
        start_col,
        end_col: start_col + n,
        fg: CellColor::Theme(ThemeColor::Foreground),
        bg: None,
        is_bold: false,
        is_underline: false,
        is_emoji: false,
        is_nerd: false,
        emoji_scale: None,
        char_cols: (start_col..start_col + n).collect(),
    }
}

#[test]
fn search_highlights_mark_each_match_by_columns() {
    let mut wide = plain("中x", 6);
    wide.char_cols = vec![6, 8];
    wide.end_col = 9;
    let rows = vec![vec![plain("Foo bar ", 0), plain("fOO", 8)], vec![], vec![wide, plain("foofoo", 9)]];
    let h = search_highlights(&rows, "FOO", true, Some(7), 5);
    assert_eq!(h.len(), 3);
    // rows from the bottom: row 2 is offset 5, row 1 offset 6, row 0 offset 7
    assert_eq!(h[0], vec![(0, 3, true), (8, 3, true)]);
    assert!(h[1].is_empty());
    assert_eq!(h[2], vec![(9, 3, false), (12, 3, false)]);
    let wide_hits = search_highlights(&rows, "中", true, None, 0);
    assert_eq!(wide_hits[2], vec![(6, 2, false)]);
    let closed = search_highlights(&rows, "foo", false, None, 0);
    assert!(closed.iter().all(|r| r.is_empty()));
    let blank = search_highlights(&rows, "", true, None, 0);
    assert_eq!(blank.len(), 3);
    assert!(blank.iter().all(|r| r.is_empty()));
}

#[test]
fn visible_images_overlap_the_viewport() {
    let ps = vec![
        ImagePlacement { absolute_line: 2, rows: 3 },
        ImagePlacement { absolute_line: 10, rows: 4 },
        ImagePlacement { absolute_line: 30, rows: 1 },
        ImagePlacement { absolute_line: 18, rows: 2 },
    ];
    // 20 lines pushed, 6 rows shown, scrolled 4 up: lines 16..22
    let v = visible_images(&ps, 20, 6, 4);
    assert_eq!(v, vec![VisibleImage { index: 3, row: 2 }]);
    // at the bottom: lines 20..26; the image at 18 ends at 20, so it is gone
    assert!(visible_images(&ps, 20, 6, 0).is_empty());
    // scrolled 10 up: lines 10..16
    assert_eq!(visible_images(&ps, 20, 6, 10), vec![VisibleImage { index: 1, row: 0 }]);
    // scrolled 17 up: lines 3..9; the first image spans lines 2..5
    assert_eq!(visible_images(&ps, 20, 6, 17), vec![VisibleImage { index: 0, row: -1 }]);
}
