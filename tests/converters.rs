use termplay::converters::color256::{nearest_color, palette_color};
use termplay::converters::{Color256, Converter, DynamicConverter, HalfBlock, Sixel, TrueColor};
use termplay::frame::Frame;

fn frame(width: u32, height: u32, data: Vec<u8>) -> Frame {
    Frame::new(width, height, data).expect("three bytes per pixel")
}

#[test]
fn frame_new_checks_length() {
    assert!(Frame::new(2, 1, vec![0; 6]).is_some());
    assert!(Frame::new(2, 1, vec![0; 5]).is_none());
    assert!(Frame::new(0, 0, vec![]).is_some());
    let f = frame(2, 2, (0..12).collect());
    assert_eq!(f.rgb(1, 1), (9, 10, 11));
}

#[test]
fn truecolor_text() {
    let f = frame(2, 1, vec![1, 2, 3, 255, 0, 10]);
    let out = TrueColor.to_vec(&f).unwrap();
    assert_eq!(
        String::from_utf8(out).unwrap(),
        "\x1b[48;2;1;2;3m \x1b[48;2;255;0;10m \x1b[0m\r\n"
    );
}

#[test]
fn truecolor_two_rows() {
    let f = frame(1, 2, vec![0, 0, 0, 100, 20, 3]);
    let out = TrueColor.to_vec(&f).unwrap();
    assert_eq!(
        String::from_utf8(out).unwrap(),
        "\x1b[48;2;0;0;0m \x1b[0m\r\n\x1b[48;2;100;20;3m \x1b[0m\r\n"
    );
}

#[test]
fn truecolor_empty_image() {
    let f = frame(0, 0, vec![]);
    assert_eq!(TrueColor.to_vec(&f).unwrap(), Vec::<u8>::new());
}

#[test]
fn halfblock_pairs_rows() {
    let f = frame(1, 2, vec![1, 2, 3, 4, 5, 6]);
    let out = HalfBlock.to_vec(&f).unwrap();
    assert_eq!(
        String::from_utf8(out).unwrap(),
        "\x1b[38;2;1;2;3m\x1b[48;2;4;5;6m▀\x1b[0m"
    );
}

#[test]
fn halfblock_odd_height_uses_black() {
    let f = frame(1, 3, vec![1, 1, 1, 2, 2, 2, 3, 3, 3]);
    let out = HalfBlock.to_vec(&f).unwrap();
    assert_eq!(
        String::from_utf8(out).unwrap(),
        "\x1b[38;2;1;1;1m\x1b[48;2;2;2;2m▀\x1b[0m\r\n\x1b[38;2;3;3;3m\x1b[48;2;0;0;0m▀\x1b[0m"
    );
}

#[test]
fn color256_text() {
    let f = frame(2, 1, vec![255, 0, 0, 0, 0, 0]);
    let out = Color256.to_vec(&f).unwrap();
    assert_eq!(
        String::from_utf8(out).unwrap(),
        "\x1b[38;5;196m█\x1b[38;5;16m█\x1b[0m\r\n"
    );
}

#[test]
fn color256_exact_red_is_196() {
    assert_eq!(nearest_color((255, 0, 0)), 196);
}

#[test]
fn color256_exact_palette_colors_map_to_themselves() {
    for i in (1u16..=7).chain(16..=255) {
        let c = palette_color(i as u8);
        assert_eq!(nearest_color(c), i as u8, "entry {}", i);
    }
}

#[test]
fn color256_nearest_of_off_palette_colors() {
    // (250, 5, 5) is 15 from pure red, the nearest entry
    assert_eq!(nearest_color((250, 5, 5)), 196);
    // a gray between two ramp steps goes to the lower one on a tie
    assert_eq!(nearest_color((13, 13, 13)), 232);
    assert_eq!(nearest_color((129, 0, 0)), 1);
}

#[test]
fn palette_layout() {
    assert_eq!(palette_color(1), (128, 0, 0));
    assert_eq!(palette_color(16), (0, 0, 0));
    assert_eq!(palette_color(17), (0, 0, 95));
    assert_eq!(palette_color(196), (255, 0, 0));
    assert_eq!(palette_color(231), (255, 255, 255));
    assert_eq!(palette_color(232), (8, 8, 8));
    assert_eq!(palette_color(255), (238, 238, 238));
}

#[test]
fn actual_positions() {
    assert_eq!(TrueColor.actual_pos(3, 4), (3, 4));
    assert_eq!(Color256.actual_pos(3, 4), (3, 4));
    assert_eq!(HalfBlock.actual_pos(3, 4), (3, 8));
    assert_eq!(Sixel.actual_pos(3, 4), (30, 40));
    assert_eq!(DynamicConverter::HalfBlock.actual_pos(3, 4), (3, 8));
    assert_eq!(DynamicConverter::Sixel.actual_pos(65535, 65535), (655350, 655350));
}

#[test]
fn dynamic_converter_dispatches() {
    let f = frame(1, 1, vec![1, 2, 3]);
    assert_eq!(DynamicConverter::TrueColor.to_vec(&f), TrueColor.to_vec(&f));
    assert_eq!(DynamicConverter::Color256.to_vec(&f), Color256.to_vec(&f));
    assert_eq!(DynamicConverter::HalfBlock.to_vec(&f), HalfBlock.to_vec(&f));
    assert_eq!(DynamicConverter::Sixel.to_vec(&f), None);
}
