use carbonyl_term::gfx::{Cell, Color, Grapheme, Point, Quadrant, Size};
use carbonyl_term::painter::Painter;
use carbonyl_term::sixel::EncodeFailure;

fn flat(c: Color) -> Quadrant {
    Quadrant(c, c, c, c)
}

fn glyph_cell(x: u32, y: u32, text: &str, fg: Color, bg: Color) -> Cell {
    Cell {
        cursor: Point::new(x, y),
        quadrant: flat(bg),
        grapheme: Some(Grapheme { text: text.as_bytes().to_vec(), color: fg, width: 1, index: 0 }),
        image: false,
    }
}

const BLACK: Color = Color { r: 0, g: 0, b: 0 };
const WHITE: Color = Color { r: 255, g: 255, b: 255 };

#[test]
fn cursor_not_repeated_for_adjacent_cells() {
    let mut p = Painter::new(true);
    p.paint(&glyph_cell(0, 0, "a", WHITE, BLACK));
    p.paint(&glyph_cell(1, 0, "b", WHITE, BLACK));
    let out = p.end(None);
    assert_eq!(out, b"\x1b[1;1H\x1b[48;2;0;0;0m\x1b[38;2;255;255;255mab".to_vec());
}

#[test]
fn cursor_moved_when_cell_elsewhere() {
    let mut p = Painter::new(true);
    p.paint(&glyph_cell(0, 0, "a", WHITE, BLACK));
    p.paint(&glyph_cell(4, 2, "b", WHITE, BLACK));
    let out = p.end(None);
    assert_eq!(out, b"\x1b[1;1H\x1b[48;2;0;0;0m\x1b[38;2;255;255;255ma\x1b[3;5Hb".to_vec());
}

#[test]
fn same_colors_sent_once() {
    let mut p = Painter::new(true);
    for x in 0..5u32 {
        p.paint(&glyph_cell(x, 0, "z", WHITE, BLACK));
    }
    let out = p.end(None);
    assert_eq!(out, b"\x1b[1;1H\x1b[48;2;0;0;0m\x1b[38;2;255;255;255mzzzzz".to_vec());
}

#[test]
fn palette_code_not_resent_for_close_colors() {
    let mut p = Painter::new(false);
    p.paint(&glyph_cell(0, 0, "x", WHITE, BLACK));
    p.paint(&glyph_cell(1, 0, "y", WHITE, Color::new(1, 1, 1)));
    let out = p.end(None);
    assert_eq!(out, b"\x1b[1;1H\x1b[48;5;16m\x1b[38;5;231mxy".to_vec());
    assert_eq!(p.background, Some(Color::new(1, 1, 1)));
}

#[test]
fn colors_kept_across_frames() {
    let mut p = Painter::new(true);
    p.paint(&glyph_cell(0, 0, "a", WHITE, BLACK));
    let _ = p.end(None);
    p.paint(&glyph_cell(0, 0, "a", WHITE, BLACK));
    let out = p.end(None);
    assert_eq!(out, b"\x1b[1;1Ha".to_vec());
}

#[test]
fn continuation_cell_writes_nothing() {
    let mut p = Painter::new(true);
    let cell = Cell {
        cursor: Point::new(3, 3),
        quadrant: flat(BLACK),
        grapheme: Some(Grapheme { text: "\u{4e2d}".as_bytes().to_vec(), color: WHITE, width: 2, index: 1 }),
        image: false,
    };
    p.paint(&cell);
    assert_eq!(p.cursor, None);
    assert_eq!(p.end(None), Vec::<u8>::new());
}

#[test]
fn wide_glyph_advances_cursor_by_width() {
    let mut p = Painter::new(true);
    let cell = Cell {
        cursor: Point::new(3, 3),
        quadrant: flat(BLACK),
        grapheme: Some(Grapheme { text: "\u{4e2d}".as_bytes().to_vec(), color: WHITE, width: 2, index: 0 }),
        image: false,
    };
    p.paint(&cell);
    assert_eq!(p.cursor, Some(Point::new(5, 3)));
}

#[test]
fn glyph_background_is_folded_mean() {
    let mut p = Painter::new(true);
    let cell = Cell {
        cursor: Point::new(0, 0),
        quadrant: Quadrant(Color::new(0, 0, 0), Color::new(100, 100, 100), Color::new(200, 200, 200), Color::new(40, 40, 40)),
        grapheme: Some(Grapheme { text: b"q".to_vec(), color: WHITE, width: 1, index: 0 }),
        image: false,
    };
    p.paint(&cell);
    // ((0 + 100) / 2 + 200) / 2 = 125; (125 + 40) / 2 = 82
    assert_eq!(p.background, Some(Color::new(82, 82, 82)));
}

#[test]
fn block_cell_uses_half_block() {
    let mut p = Painter::new(true);
    let cell = Cell {
        cursor: Point::new(0, 0),
        quadrant: Quadrant(BLACK, BLACK, WHITE, WHITE),
        grapheme: None,
        image: false,
    };
    p.paint(&cell);
    let out = p.end(None);
    let mut expected = b"\x1b[1;1H\x1b[48;2;0;0;0m\x1b[38;2;255;255;255m".to_vec();
    expected.extend_from_slice("\u{2584}".as_bytes());
    assert_eq!(out, expected);
}

#[test]
fn image_cell_skipped_with_sixel() {
    let mut p = Painter::new(true);
    p.enable_sixel(Size::new(0, 0), true);
    let cell = Cell { cursor: Point::new(0, 0), quadrant: flat(BLACK), grapheme: None, image: true };
    p.paint(&cell);
    assert_eq!(p.end(None), Vec::<u8>::new());
}

#[test]
fn image_cell_painted_without_sixel() {
    let mut p = Painter::new(true);
    let cell = Cell { cursor: Point::new(0, 0), quadrant: flat(BLACK), grapheme: None, image: true };
    p.paint(&cell);
    assert_eq!(p.end(None), b"\x1b[1;1H\x1b[48;2;0;0;0m\x1b[38;2;0;0;0m ".to_vec());
}

#[test]
fn begin_hides_cursor() {
    let mut p = Painter::new(true);
    p.begin();
    assert_eq!(p.end(None), b"\x1b[?25l\x1b[?12l".to_vec());
}

#[test]
fn end_places_and_shows_cursor() {
    let mut p = Painter::new(true);
    assert_eq!(p.end(Some(Point::new(2, 3))), b"\x1b[4;3H\x1b[?25h\x1b[?12h".to_vec());
}

#[test]
fn scrolling_mode_sent_once() {
    let mut p = Painter::new(true);
    p.enable_sixel(Size::new(0, 0), true);
    p.begin();
    assert_eq!(p.end(None), b"\x1b[?25l\x1b[?12l\x1b[?80h".to_vec());
    p.begin();
    assert_eq!(p.end(None), b"\x1b[?25l\x1b[?12l".to_vec());
}

#[test]
fn enable_sixel_twice_keeps_first_settings() {
    let mut p = Painter::new(true);
    p.enable_sixel(Size::new(10, 10), false);
    p.enable_sixel(Size::new(99, 99), true);
    let st = p.sixel.as_ref().unwrap();
    assert_eq!(st.geometry, Size::new(10, 10));
    assert!(!st.scrolling);
}

#[test]
fn pending_frame_drawn_once() {
    let mut p = Painter::new(true);
    p.enable_sixel(Size::new(0, 0), false);
    assert!(p.queue_sixel_background(&vec![0u8; 400], Size::new(10, 10), Ok(b"PQ".to_vec())));
    p.begin();
    assert_eq!(p.end(None), b"\x1b[?25l\x1b[?12l\x1b[?80l\x1b[HPQ\x1b[H".to_vec());
    p.begin();
    assert_eq!(p.end(None), b"\x1b[?25l\x1b[?12l".to_vec());
}

#[test]
fn oversized_viewport_refused() {
    let mut p = Painter::new(true);
    p.enable_sixel(Size::new(50, 50), true);
    assert!(p.queue_sixel_background(&vec![0u8; 400], Size::new(10, 10), Ok(b"old".to_vec())));
    let ok = p.queue_sixel_background(&vec![0u8; 100 * 100 * 4], Size::new(100, 100), Ok(b"new".to_vec()));
    assert!(!ok);
    assert!(p.sixel.as_ref().unwrap().pending.is_none());
    p.begin();
    assert_eq!(p.end(None), b"\x1b[?25l\x1b[?12l\x1b[?80h".to_vec());
}

#[test]
fn short_buffer_refused() {
    let mut p = Painter::new(true);
    p.enable_sixel(Size::new(0, 0), true);
    assert!(!p.queue_sixel_background(&vec![0u8; 399], Size::new(10, 10), Ok(b"x".to_vec())));
    assert!(p.sixel.as_ref().unwrap().pending.is_none());
}

#[test]
fn encoder_failure_drops_frame() {
    let mut p = Painter::new(true);
    p.enable_sixel(Size::new(0, 0), true);
    assert!(!p.queue_sixel_background(&vec![0u8; 400], Size::new(10, 10), Err(EncodeFailure::Status(-1))));
    assert!(p.sixel.as_ref().unwrap().pending.is_none());
}

#[test]
fn zero_sized_viewport_refused() {
    let mut p = Painter::new(true);
    p.enable_sixel(Size::new(0, 0), true);
    assert!(!p.queue_sixel_background(&vec![0u8; 400], Size::new(0, 10), Ok(b"x".to_vec())));
    assert!(!p.queue_sixel_background(&vec![0u8; 400], Size::new(10, 0), Ok(b"x".to_vec())));
}

#[test]
fn queue_without_sixel_refused() {
    let mut p = Painter::new(true);
    assert!(!p.queue_sixel_background(&vec![0u8; 400], Size::new(10, 10), Ok(b"x".to_vec())));
    assert!(!p.sixel_enabled());
}

#[test]
fn true_color_flag() {
    let mut p = Painter::new(false);
    assert!(!p.true_color());
    p.set_true_color(true);
    assert!(p.true_color());
}
