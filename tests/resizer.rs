use termplay::resizer::{apply_pixel_ratio, keep_aspect_ratio, with_font_ratio, Sizer, StandardSizer};

#[test]
fn test_aspect_ratio() {
    assert_eq!(keep_aspect_ratio(2, 1, 4, 5), (4, 2));
    assert_eq!(keep_aspect_ratio(1, 2, 5, 4), (2, 4));

    assert_eq!(keep_aspect_ratio(1092, 614, 167, 40), (71, 40));
}

#[test]
fn test_font_ratio() {
    assert_eq!(apply_pixel_ratio(50, 5, 3, 10), (7, 3));
    assert_eq!(apply_pixel_ratio(50, 5, 3, 5), (5, 2));
}

#[test]
fn aspect_ratio_is_idempotent() {
    let once = keep_aspect_ratio(1092, 614, 167, 40);
    assert_eq!(keep_aspect_ratio(once.0, once.1, 167, 40), once);
    let once = keep_aspect_ratio(3, 1000, 80, 24);
    assert_eq!(once, (0, 24));
    assert_eq!(keep_aspect_ratio(once.0, once.1, 80, 24), once);
}

#[test]
fn aspect_ratio_fits_box() {
    let (w, h) = keep_aspect_ratio(640, 480, 100, 100);
    assert_eq!((w, h), (100, 75));
    let (w, h) = keep_aspect_ratio(480, 640, 100, 100);
    assert_eq!((w, h), (75, 100));
}

#[test]
fn aspect_ratio_zero_box() {
    assert_eq!(keep_aspect_ratio(10, 10, 0, 5), (0, 0));
    assert_eq!(keep_aspect_ratio(10, 10, 5, 0), (0, 0));
}

#[test]
fn aspect_ratio_large_values() {
    assert_eq!(keep_aspect_ratio(u32::MAX, 1, u32::MAX, u32::MAX), (u32::MAX, 1));
    assert_eq!(keep_aspect_ratio(1, u32::MAX, u32::MAX, u32::MAX), (1, u32::MAX));
}

#[test]
fn font_ratio_zero_is_identity() {
    assert_eq!(apply_pixel_ratio(0, 17, 9, 17), (17, 9));
    assert_eq!(with_font_ratio(17, 0), 17);
}

#[test]
fn font_ratio_stretches_width() {
    assert_eq!(with_font_ratio(5, 50), 7);
    assert_eq!(with_font_ratio(80, 100), 160);
    assert_eq!(with_font_ratio(u32::MAX, 1), u32::MAX);
}

#[test]
fn standard_sizer_applies_ratio() {
    let sizer = StandardSizer { new_width: 10, new_height: 3, ratio: Some(50) };
    // fit gives (5, 3); stretched width 7 fits in 10
    assert_eq!(sizer.get_size(5, 3), (7, 3));
    let sizer = StandardSizer { new_width: 5, new_height: 5, ratio: Some(50) };
    // fit gives (5, 3); stretched width 7 exceeds 5, so the height shrinks
    assert_eq!(sizer.get_size(5, 3), (5, 2));
    let sizer = StandardSizer { new_width: 5, new_height: 5, ratio: None };
    assert_eq!(sizer.get_size(5, 3), (5, 3));
}
