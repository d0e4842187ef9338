use carbonyl_term::cli::{is_true_color, parse_switch, EnvVar};
use carbonyl_term::gfx::{binarize_quadrant, Color, Quadrant};
use carbonyl_term::sixel::{Error, EncodeFailure, Frame};
use carbonyl_term::gfx::Size;
use carbonyl_term::window::{page_size, parse_size_reply, terminal_size};

#[test]
fn xterm_codes() {
    assert_eq!(Color::new(0, 0, 0).to_xterm(), 16);
    assert_eq!(Color::new(255, 255, 255).to_xterm(), 231);
    assert_eq!(Color::new(128, 128, 128).to_xterm(), 244);
    assert_eq!(Color::new(6, 6, 6).to_xterm(), 232);
    assert_eq!(Color::new(240, 240, 240).to_xterm(), 255);
    assert_eq!(Color::new(255, 0, 0).to_xterm(), 196);
    assert_eq!(Color::new(0, 255, 0).to_xterm(), 46);
    assert_eq!(Color::new(0, 0, 255).to_xterm(), 21);
    assert_eq!(Color::new(95, 135, 175).to_xterm(), 67);
}

#[test]
fn average_rounds_down() {
    assert_eq!(Color::new(10, 20, 30).avg_with(Color::new(20, 40, 61)), Color::new(15, 30, 45));
}

#[test]
fn flat_quadrant_is_space() {
    let c = Color::new(9, 80, 200);
    let (text, bg, fg) = binarize_quadrant(Quadrant(c, c, c, c));
    assert_eq!(text, b" ".to_vec());
    assert_eq!(bg, c);
    assert_eq!(fg, c);
}

#[test]
fn split_quadrant_is_half_block() {
    let (k, w) = (Color::new(0, 0, 0), Color::new(255, 255, 255));
    let (text, bg, fg) = binarize_quadrant(Quadrant(k, k, w, w));
    assert_eq!(text, "\u{2584}".as_bytes().to_vec());
    assert_eq!(bg, k);
    assert_eq!(fg, w);
    let (text, _, _) = binarize_quadrant(Quadrant(w, k, k, w));
    assert_eq!(text, "\u{259a}".as_bytes().to_vec());
}

#[test]
fn zero_size_is_invalid() {
    for size in [Size::new(0, 7), Size::new(7, 0), Size::new(0, 0)] {
        assert_eq!(Frame::check_size(size), Err(Error::InvalidSize(size)));
        assert!(matches!(Frame::from_encoded(size, Ok(b"x".to_vec())), Err(Error::InvalidSize(s)) if s == size));
    }
    assert_eq!(Frame::check_size(Size::new(1, 1)), Ok(()));
}

#[test]
fn encoder_result_carried() {
    let f = Frame::from_encoded(Size::new(2, 2), Ok(b"\x1bPq".to_vec())).unwrap();
    assert_eq!(f.bytes, b"\x1bPq".to_vec());
    assert!(matches!(
        Frame::from_encoded(Size::new(2, 2), Err(EncodeFailure::Utf8)),
        Err(Error::Encode(EncodeFailure::Utf8))
    ));
}

#[test]
fn env_var_names() {
    assert_eq!(EnvVar::Debug.as_str(), "CARBONYL_ENV_DEBUG");
    assert_eq!(EnvVar::Bitmap.as_str(), "CARBONYL_ENV_BITMAP");
    assert_eq!(EnvVar::SixelOnly.as_str(), "CARBONYL_ENV_SIXEL_ONLY");
    assert_eq!(EnvVar::ShellMode.as_str(), "CARBONYL_ENV_SHELL_MODE");
}

#[test]
fn terminal_size_fallbacks() {
    assert_eq!(terminal_size(80, 24, None, None), Size::new(80, 24));
    assert_eq!(terminal_size(0, 24, None, None), Size::new(80, 24));
    assert_eq!(terminal_size(0, 0, Some(100), Some(0)), Size::new(100, 24));
    assert_eq!(terminal_size(120, 0, Some(90), Some(30)), Size::new(90, 30));
}

#[test]
fn page_keeps_a_row() {
    assert_eq!(page_size(Size::new(80, 24)), Size::new(80, 23));
    assert_eq!(page_size(Size::new(0, 1)), Size::new(1, 1));
    assert_eq!(page_size(Size::new(5, 2)), Size::new(5, 1));
}

#[test]
fn cell_size_reply() {
    assert_eq!(parse_size_reply(b"\x1b[6;16;8t", b'6'), Some(Size::new(8, 16)));
    assert_eq!(parse_size_reply(b"junk\x1b[4;384;640t", b'4'), Some(Size::new(640, 384)));
    assert_eq!(parse_size_reply(b"\x1b[4;384;640;1t", b'4'), Some(Size::new(640, 384)));
    assert_eq!(parse_size_reply(b"\x1b[6;10;5t\x1b[6;20;9t", b'6'), Some(Size::new(9, 20)));
}

#[test]
fn malformed_size_reply() {
    assert_eq!(parse_size_reply(b"", b'6'), None);
    assert_eq!(parse_size_reply(b"\x1b[6;16;8", b'6'), None);
    assert_eq!(parse_size_reply(b"\x1b[6;0;8t", b'6'), None);
    assert_eq!(parse_size_reply(b"\x1b[6;16t", b'6'), None);
    assert_eq!(parse_size_reply(b"\x1b[6;1x;8t", b'6'), None);
    assert_eq!(parse_size_reply(b"\x1b[4;16;8t", b'6'), None);
    assert_eq!(parse_size_reply(b"\x1b[6;;8t", b'6'), None);
}

#[test]
fn switch_values() {
    for on in ["1", "true", "on", "yes", " TRUE ", "Yes\n", "\tOn"] {
        assert_eq!(parse_switch(on), Some(true), "{on:?}");
    }
    for off in ["0", "false", "off", "no", "  OFF", "False\r\n", "NO"] {
        assert_eq!(parse_switch(off), Some(false), "{off:?}");
    }
    for other in ["", " ", "2", "yess", "t rue", "enabled"] {
        assert_eq!(parse_switch(other), None, "{other:?}");
    }
}

#[test]
fn colorterm_values() {
    assert!(is_true_color("truecolor"));
    assert!(is_true_color("24bit"));
    assert!(!is_true_color(""));
    assert!(!is_true_color("TrueColor"));
    assert!(!is_true_color("256"));
}

#[test]
fn switch_values_trim_unicode_whitespace() {
    assert_eq!(parse_switch("0\u{a0}"), Some(false));
    assert_eq!(parse_switch("\u{3000}yes\u{2009}"), Some(true));
    assert_eq!(parse_switch("\u{85}OFF\u{2028}"), Some(false));
    assert_eq!(parse_switch("\u{200b}1"), None);
    assert_eq!(parse_switch("\u{130}"), None);
}
