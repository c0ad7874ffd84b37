use termplay::converters::{DynamicConverter, TrueColor};
use termplay::frame::Frame;
use termplay::interactive::{handle_video_event, handle_view_event, Action, Event, ImageViewer, MouseButton, VideoAction};
use termplay::zoomer::Zoomer;

#[test]
fn keys_pan_and_zoom() {
    let mut z = Zoomer::new(TrueColor);
    assert_eq!(handle_view_event(&mut z, Event::Char('s')), Action::Redraw);
    assert_eq!(handle_view_event(&mut z, Event::Char('d')), Action::Redraw);
    assert_eq!(z.pos(), (2, 2));
    handle_view_event(&mut z, Event::Char('w'));
    handle_view_event(&mut z, Event::Char('w'));
    assert_eq!(z.pos(), (2, 0));
    handle_view_event(&mut z, Event::Char('+'));
    assert_eq!(z.level(), 95);
    handle_view_event(&mut z, Event::Char('-'));
    handle_view_event(&mut z, Event::Char('-'));
    assert_eq!(z.level(), 100);
    assert_eq!(handle_view_event(&mut z, Event::Char('x')), Action::Redraw);
    assert_eq!(z.pos(), (2, 0));
}

#[test]
fn quit_keys() {
    let mut z = Zoomer::new(TrueColor);
    assert_eq!(handle_view_event(&mut z, Event::Char('q')), Action::Quit);
    assert_eq!(handle_view_event(&mut z, Event::Ctrl('c')), Action::Quit);
    assert_eq!(handle_view_event(&mut z, Event::Ctrl('d')), Action::Nothing);
    assert_eq!(handle_view_event(&mut z, Event::Other), Action::Nothing);
}

#[test]
fn wheel_zoom_anchors_at_full_view() {
    let mut z = Zoomer::new(TrueColor);
    handle_view_event(&mut z, Event::Press(MouseButton::WheelUp, 30, 10));
    assert_eq!(z.pos(), (30, 10));
    assert_eq!(z.level(), 95);
    // no longer fully zoomed out: the pointer does not move the view
    handle_view_event(&mut z, Event::Press(MouseButton::WheelUp, 1, 1));
    assert_eq!(z.pos(), (30, 10));
    assert_eq!(z.level(), 90);
    handle_view_event(&mut z, Event::Press(MouseButton::WheelDown, 1, 1));
    assert_eq!(z.level(), 95);
}

#[test]
fn zoom_in_stops_at_one() {
    let mut z = Zoomer::new(TrueColor);
    for _ in 0..30 {
        handle_view_event(&mut z, Event::Char('+'));
    }
    assert_eq!(z.level(), 1);
}

#[test]
fn mouse_drag() {
    let mut z = Zoomer::new(TrueColor);
    z.set_pos(10, 10);
    assert_eq!(handle_view_event(&mut z, Event::Press(MouseButton::Left, 5, 5)), Action::Redraw);
    assert!(z.is_dragging());
    assert_eq!(handle_view_event(&mut z, Event::Hold(7, 5)), Action::Redraw);
    assert_eq!(z.pos(), (8, 10));
    assert_eq!(handle_view_event(&mut z, Event::Release(7, 5)), Action::Nothing);
    assert!(!z.is_dragging());
}

#[test]
fn video_events() {
    let mut z = Zoomer::new(TrueColor);
    let mut volume: u8 = 10;
    assert_eq!(handle_video_event(&mut z, &mut volume, Event::Char(' ')), VideoAction::TogglePause);
    assert_eq!(handle_video_event(&mut z, &mut volume, Event::Left), VideoAction::SeekBack);
    assert_eq!(handle_video_event(&mut z, &mut volume, Event::Right), VideoAction::SeekForward);
    assert_eq!(handle_video_event(&mut z, &mut volume, Event::Up), VideoAction::SetVolume(10));
    assert_eq!(handle_video_event(&mut z, &mut volume, Event::Down), VideoAction::SetVolume(9));
    for _ in 0..20 {
        handle_video_event(&mut z, &mut volume, Event::Down);
    }
    assert_eq!(volume, 1);
    assert_eq!(handle_video_event(&mut z, &mut volume, Event::Char('d')), VideoAction::Redraw);
    assert_eq!(z.pos(), (2, 0));
    assert_eq!(handle_video_event(&mut z, &mut volume, Event::Char('q')), VideoAction::Quit);
}

#[test]
fn viewer_renders_resized_image() {
    let image = Frame::new(2, 2, vec![9, 9, 9, 9, 9, 9, 9, 9, 9, 9, 9, 9]).unwrap();
    let viewer = ImageViewer { converter: TrueColor, width: 1, height: 1 };
    let out = String::from_utf8(viewer.render(&image).unwrap()).unwrap();
    assert_eq!(out, "\x1b[48;2;9;9;9m \x1b[0m\r\n");
}

#[test]
fn viewer_same_size_keeps_pixels() {
    let image = Frame::new(2, 1, vec![1, 2, 3, 4, 5, 6]).unwrap();
    let viewer = ImageViewer { converter: DynamicConverter::TrueColor, width: 2, height: 1 };
    let out = String::from_utf8(viewer.render(&image).unwrap()).unwrap();
    assert_eq!(out, "\x1b[48;2;1;2;3m \x1b[48;2;4;5;6m \x1b[0m\r\n");
    let sixel = ImageViewer { converter: DynamicConverter::Sixel, width: 2, height: 1 };
    assert_eq!(sixel.render(&image), None);
}
