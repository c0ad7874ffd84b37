use termplay::converters::{HalfBlock, TrueColor};
use termplay::frame::Frame;
use termplay::zoomer::Zoomer;

#[test]
fn set_level_clamps() {
    let mut z = Zoomer::new(TrueColor);
    assert_eq!(z.level(), 100);
    z.set_level(0);
    assert_eq!(z.level(), 1);
    z.set_level(150);
    assert_eq!(z.level(), 100);
    z.set_level(42);
    assert_eq!(z.level(), 42);
}

#[test]
fn bounds_whole_image_at_full_level() {
    let z = Zoomer::new(TrueColor);
    assert_eq!(z.bounds(640, 480, 80, 24), (0, 0, 640, 480));
}

#[test]
fn bounds_centers_on_the_cursor() {
    let mut z = Zoomer::new(TrueColor);
    z.set_level(50);
    z.set_pos(40, 12);
    // (40, 12) of 80 x 24 is (320, 240) of 640 x 480; the crop is 320 x 240
    assert_eq!(z.bounds(640, 480, 80, 24), (160, 120, 320, 240));
}

#[test]
fn bounds_stay_inside_the_image() {
    let mut z = Zoomer::new(HalfBlock);
    for level in [1u8, 5, 29, 50, 99, 100] {
        z.set_level(level);
        for &(x, y) in &[(0u16, 0u16), (10, 3), (79, 23), (500, 500), (u16::MAX, u16::MAX)] {
            z.set_pos(x, y);
            for &(ow, oh, nw, nh) in &[(640u32, 480u32, 80u32, 24u32), (7, 3, 7, 3), (1, 1, 0, 0), (0, 0, 10, 10)] {
                let (cx, cy, cw, ch) = z.bounds(ow, oh, nw, nh);
                assert!(cx + cw <= ow && cy + ch <= oh);
            }
        }
    }
}

#[test]
fn bounds_uses_converter_position() {
    let mut z = Zoomer::new(HalfBlock);
    z.set_level(50);
    z.set_pos(0, 6);
    // half blocks: row 6 is pixel row 12 of the 80 x 24 resized image
    assert_eq!(z.bounds(80, 24, 80, 24), (0, 6, 40, 12));
}

#[test]
fn drag_pans_against_the_motion() {
    let mut z = Zoomer::new(TrueColor);
    z.set_pos(10, 10);
    z.drag_move(20, 20);
    assert_eq!(z.pos(), (10, 10));
    z.drag_start(5, 5);
    assert!(z.is_dragging());
    z.drag_move(8, 4);
    assert_eq!(z.pos(), (7, 11));
    z.drag_move(30, 4);
    assert_eq!(z.pos(), (0, 11));
    z.drag_stop();
    assert!(!z.is_dragging());
    z.drag_move(0, 0);
    assert_eq!(z.pos(), (0, 11));
}

#[test]
fn crop_takes_the_bounds() {
    let data: Vec<u8> = (0..4 * 2 * 3).map(|v| v as u8).collect();
    let image = Frame::new(4, 2, data).unwrap();
    let mut z = Zoomer::new(TrueColor);
    z.set_level(50);
    z.set_pos(3, 1);
    assert_eq!(z.bounds(4, 2, 4, 2), (2, 1, 2, 1));
    let c = z.crop(&image, 4, 2);
    assert_eq!((c.width(), c.height()), (2, 1));
    assert_eq!(c.rgb(0, 0), image.rgb(2, 1));
    assert_eq!(c.rgb(1, 0), image.rgb(3, 1));
    assert_eq!(c.data, vec![18, 19, 20, 21, 22, 23]);
}
