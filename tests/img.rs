use termplay::frame::Frame;
use termplay::img::{convert, convert_256, convert_true, fit_size, Converter};

#[test]
fn parse_names() {
    assert_eq!(Converter::parse("truecolor"), Some(Converter::TrueColor));
    assert_eq!(Converter::parse("256-color"), Some(Converter::Color256));
    assert_eq!(Converter::parse("sixel"), Some(Converter::Sixel));
    assert_eq!(Converter::parse("sixels"), None);
    assert_eq!("sixel".parse::<Converter>(), Ok(Converter::Sixel));
    assert_eq!("".parse::<Converter>(), Err(()));
}

#[test]
fn fit_sizes() {
    assert_eq!(fit_size(Converter::TrueColor, Some(80), Some(24), None, 0), (80, 24));
    assert_eq!(fit_size(Converter::TrueColor, Some(80), Some(24), None, 50), (80, 36));
    assert_eq!(fit_size(Converter::Sixel, Some(80), None, Some((100, 30)), 50), (800, 300));
    assert_eq!(fit_size(Converter::Color256, None, None, None, 0), (40, 20));
}

#[test]
fn true_blocks() {
    let f = Frame::new(1, 1, vec![1, 2, 3]).unwrap();
    assert_eq!(convert_true(&f, 0), "\x1b[38;2;1;2;3m█\n\x1b[0;0m");
}

#[test]
fn palette_blocks() {
    let f = Frame::new(2, 1, vec![255, 0, 0, 255, 255, 255]).unwrap();
    assert_eq!(convert_256(&f, 0), "\x1b[38;5;196m█\x1b[38;5;231m█\n\x1b[0;0m");
}

#[test]
fn ratio_drops_rows() {
    let f = Frame::new(1, 3, vec![1, 1, 1, 2, 2, 2, 3, 3, 3]).unwrap();
    // ratio 50: the second row brings the count to 100 and is dropped
    assert_eq!(
        convert_true(&f, 50),
        "\x1b[38;2;1;1;1m█\n\x1b[38;2;3;3;3m█\n\x1b[0;0m"
    );
}

#[test]
fn convert_dispatch() {
    let f = Frame::new(1, 1, vec![1, 2, 3]).unwrap();
    assert_eq!(convert(&f, Converter::TrueColor, 0), Some(convert_true(&f, 0)));
    assert_eq!(convert(&f, Converter::Color256, 0), Some(convert_256(&f, 0)));
    assert_eq!(convert(&f, Converter::Sixel, 0), None);
}

#[test]
fn fit_keeps_aspect_ratio() {
    let f = Frame::new(4, 2, (0..24).collect()).unwrap();
    let fitted = termplay::img::fit(&f, Converter::TrueColor, Some(2), Some(2), None, 0);
    assert_eq!((fitted.width(), fitted.height()), (2, 1));
    assert_eq!(fitted.data.len(), 6);
    let same = termplay::img::fit(&f, Converter::TrueColor, Some(4), Some(2), None, 0);
    assert_eq!(same.data, f.data);
}
