//! The interactive viewers: what each input event does to the zoom state,
//! and the rendering of one view of an image.
//!
//! Reading events, raw terminal mode and writing the text are the caller's
//! part; the functions here take a decoded event and return what to do.

use crate::converters::Converter;
use crate::frame::{resize_nearest, resized_nearest, Frame, FrameView};
use crate::zoomer::{dragged, Zoomer};
use vstd::prelude::*;

verus! {

/// Cells moved by one pan key.
pub const PAN_STEP: u16 = 2;

/// Percentage points changed by one zoom step.
pub const ZOOM_STEP: u8 = 5;

/// A mouse button, as the terminal reports it.
#[derive(Clone, Copy, Debug, PartialEq, Eq, Structural)]
pub enum MouseButton {
    Left,
    Right,
    Middle,
    WheelUp,
    WheelDown,
}

/// An input event, decoded from the terminal.
#[derive(Clone, Copy, Debug, PartialEq, Eq, Structural)]
pub enum Event {
    /// A printable key.
    Char(char),
    /// A key pressed with Ctrl.
    Ctrl(char),
    Left,
    Right,
    Up,
    Down,
    /// A mouse button pressed at a cell.
    Press(MouseButton, u16, u16),
    /// The mouse moved to a cell with a button held.
    Hold(u16, u16),
    /// A mouse button released at a cell.
    Release(u16, u16),
    /// Anything else.
    Other,
}

/// What the viewer does after an event.
#[derive(Clone, Copy, Debug, PartialEq, Eq, Structural)]
pub enum Action {
    /// Leave the viewer.
    Quit,
    /// Draw the view again.
    Redraw,
    /// Nothing to show.
    Nothing,
}

/// What the video player does after an event.
#[derive(Clone, Copy, Debug, PartialEq, Eq, Structural)]
pub enum VideoAction {
    /// Leave the player.
    Quit,
    /// Pause if playing, play if paused.
    TogglePause,
    /// Seek back by the seek step, not before the start.
    SeekBack,
    /// Seek forward by the seek step.
    SeekForward,
    /// Set the volume, in tenths.
    SetVolume(u8),
    /// Draw the paused frame again, if there is one.
    Redraw,
    /// Nothing to do.
    Nothing,
}

/// A zoom level clamped to 1..=100.
pub open spec fn clamp_level(level: int) -> u8 {
    if level < 1 {
        1
    } else if level > 100 {
        100
    } else {
        level as u8
    }
}

pub open spec fn sat_sub_u16(a: u16, b: u16) -> u16 {
    if a > b {
        (a - b) as u16
    } else {
        0
    }
}

pub open spec fn sat_add_u16(a: u16, b: u16) -> u16 {
    if a + b <= u16::MAX {
        (a + b) as u16
    } else {
        u16::MAX
    }
}

/// The zoom state as seen by the event handlers: pan position, level and the
/// drag point.
pub struct ZoomState {
    pub pos: (u16, u16),
    pub level: u8,
    pub drag: Option<(u16, u16)>,
}

pub open spec fn zoom_state<C: Converter>(z: Zoomer<C>) -> ZoomState {
    ZoomState { pos: z.spec_pos(), level: z.spec_level(), drag: z.spec_drag() }
}

/// A key: `w`, `a`, `s`, `d` pan by `PAN_STEP` cells, `+` zooms in and `-`
/// zooms out by `ZOOM_STEP` points; other keys change nothing.
pub open spec fn key_spec(s: ZoomState, c: char) -> ZoomState {
    let (x, y) = s.pos;
    if c == 'w' {
        ZoomState { pos: (x, sat_sub_u16(y, PAN_STEP)), ..s }
    } else if c == 'a' {
        ZoomState { pos: (sat_sub_u16(x, PAN_STEP), y), ..s }
    } else if c == 's' {
        ZoomState { pos: (x, sat_add_u16(y, PAN_STEP)), ..s }
    } else if c == 'd' {
        ZoomState { pos: (sat_add_u16(x, PAN_STEP), y), ..s }
    } else if c == '+' {
        ZoomState { level: clamp_level(s.level - ZOOM_STEP), ..s }
    } else if c == '-' {
        ZoomState { level: clamp_level(s.level + ZOOM_STEP), ..s }
    } else {
        s
    }
}

/// A mouse press: the left button starts a drag; the wheel zooms in (up) or
/// out (down) by `ZOOM_STEP`, and when the whole image was shown it first
/// moves the pan position to the pointer.
pub open spec fn press_spec(s: ZoomState, button: MouseButton, x: u16, y: u16) -> ZoomState {
    match button {
        MouseButton::Left => ZoomState { drag: Some((x, y)), ..s },
        MouseButton::WheelUp => ZoomState {
            pos: if s.level == 100 {
                (x, y)
            } else {
                s.pos
            },
            level: clamp_level(s.level - ZOOM_STEP),
            ..s
        },
        MouseButton::WheelDown => ZoomState {
            pos: if s.level == 100 {
                (x, y)
            } else {
                s.pos
            },
            level: clamp_level(s.level + ZOOM_STEP),
            ..s
        },
        _ => s,
    }
}

/// Dragging to `(x, y)` while a drag is in progress.
pub open spec fn hold_spec(s: ZoomState, x: u16, y: u16) -> ZoomState {
    match s.drag {
        Some(anchor) => ZoomState {
            pos: (dragged(s.pos.0, anchor.0, x), dragged(s.pos.1, anchor.1, y)),
            drag: Some((x, y)),
            ..s
        },
        None => s,
    }
}

/// The image viewer's reaction to an event: the new zoom state and the action.
pub open spec fn view_event_spec(s: ZoomState, e: Event) -> (ZoomState, Action) {
    match e {
        Event::Ctrl(c) => if c == 'c' {
            (s, Action::Quit)
        } else {
            (s, Action::Nothing)
        },
        Event::Char(c) => if c == 'q' {
            (s, Action::Quit)
        } else {
            (key_spec(s, c), Action::Redraw)
        },
        Event::Press(b, x, y) => (press_spec(s, b, x, y), Action::Redraw),
        Event::Hold(x, y) => (hold_spec(s, x, y), Action::Redraw),
        Event::Release(_, _) => (ZoomState { drag: None, ..s }, Action::Nothing),
        _ => (s, Action::Nothing),
    }
}

/// The volume after a step up or down, in tenths: it stays within 1 to 10.
pub open spec fn volume_spec(volume: u8, up: bool) -> u8 {
    if up {
        if volume + 1 < 10 {
            (volume + 1) as u8
        } else {
            volume
        }
    } else if volume > 1 {
        (volume - 1) as u8
    } else {
        volume
    }
}

/// The video player's reaction to an event: the new zoom state, the new
/// volume and the action. Pan and zoom keys and the mouse act as in the image
/// viewer; space, the arrows and the volume keys drive the player.
pub open spec fn video_event_spec(s: ZoomState, volume: u8, e: Event) -> (ZoomState, u8, VideoAction) {
    match e {
        Event::Char(' ') => (s, volume, VideoAction::TogglePause),
        Event::Left => (s, volume, VideoAction::SeekBack),
        Event::Right => (s, volume, VideoAction::SeekForward),
        Event::Up => (s, volume_spec(volume, true), VideoAction::SetVolume(volume_spec(volume, true))),
        Event::Down => (
            s,
            volume_spec(volume, false),
            VideoAction::SetVolume(volume_spec(volume, false)),
        ),
        _ => {
            let (t, a) = view_event_spec(s, e);
            (t, volume, match a {
                Action::Quit => VideoAction::Quit,
                Action::Redraw => VideoAction::Redraw,
                Action::Nothing => VideoAction::Nothing,
            })
        },
    }
}

fn apply_key<C: Converter>(zoomer: &mut Zoomer<C>, c: char)
    ensures
        zoom_state(*final(zoomer)) == key_spec(zoom_state(*old(zoomer)), c),
        final(zoomer).spec_converter() == old(zoomer).spec_converter(),
        old(zoomer).wf() ==> final(zoomer).wf(),
{
    let (mut x, mut y) = zoomer.pos();
    let level = zoomer.level();
    if c == 'w' {
        y = y.saturating_sub(PAN_STEP);
    } else if c == 'a' {
        x = x.saturating_sub(PAN_STEP);
    } else if c == 's' {
        y = y.saturating_add(PAN_STEP);
    } else if c == 'd' {
        x = x.saturating_add(PAN_STEP);
    } else if c == '+' {
        zoomer.set_level(level.saturating_sub(ZOOM_STEP));
    } else if c == '-' {
        zoomer.set_level(level.saturating_add(ZOOM_STEP));
    }
    zoomer.set_pos(x, y);
    proof {
        assert(zoom_state(*zoomer) =~= key_spec(zoom_state(*old(zoomer)), c));
    }
}

fn apply_press<C: Converter>(zoomer: &mut Zoomer<C>, button: MouseButton, x: u16, y: u16)
    ensures
        zoom_state(*final(zoomer)) == press_spec(zoom_state(*old(zoomer)), button, x, y),
        final(zoomer).spec_converter() == old(zoomer).spec_converter(),
        old(zoomer).wf() ==> final(zoomer).wf(),
{
    let level = zoomer.level();
    match button {
        MouseButton::Left => zoomer.drag_start(x, y),
        MouseButton::WheelUp => {
            if level == 100 {
                zoomer.set_pos(x, y);
            }
            zoomer.set_level(level.saturating_sub(ZOOM_STEP));
        },
        MouseButton::WheelDown => {
            if level == 100 {
                zoomer.set_pos(x, y);
            }
            zoomer.set_level(level.saturating_add(ZOOM_STEP));
        },
        _ => {},
    }
    proof {
        assert(zoom_state(*zoomer) =~= press_spec(zoom_state(*old(zoomer)), button, x, y));
    }
}

/// Apply an event to the image viewer's zoom state and say what to do next.
pub fn handle_view_event<C: Converter>(zoomer: &mut Zoomer<C>, event: Event) -> (r: Action)
    requires
        old(zoomer).wf(),
    ensures
        final(zoomer).wf(),
        (zoom_state(*final(zoomer)), r) == view_event_spec(zoom_state(*old(zoomer)), event),
        final(zoomer).spec_converter() == old(zoomer).spec_converter(),
{
    match event {
        Event::Ctrl(c) => {
            if c == 'c' {
                Action::Quit
            } else {
                Action::Nothing
            }
        },
        Event::Char(c) => {
            if c == 'q' {
                Action::Quit
            } else {
                apply_key(zoomer, c);
                Action::Redraw
            }
        },
        Event::Press(button, x, y) => {
            apply_press(zoomer, button, x, y);
            Action::Redraw
        },
        Event::Hold(x, y) => {
            zoomer.drag_move(x, y);
            proof {
                assert(zoom_state(*zoomer) =~= hold_spec(zoom_state(*old(zoomer)), x, y));
            }
            Action::Redraw
        },
        Event::Release(_, _) => {
            zoomer.drag_stop();
            proof {
                assert(zoom_state(*zoomer) =~= (ZoomState { drag: None, ..zoom_state(*old(zoomer)) }));
            }
            Action::Nothing
        },
        _ => Action::Nothing,
    }
}

/// Apply an event to the video player's zoom state and volume (in tenths)
/// and say what to do next.
pub fn handle_video_event<C: Converter>(zoomer: &mut Zoomer<C>, volume: &mut u8, event: Event) -> (r:
    VideoAction)
    requires
        old(zoomer).wf(),
        1 <= *old(volume) <= 10,
    ensures
        final(zoomer).wf(),
        1 <= *final(volume) <= 10,
        (zoom_state(*final(zoomer)), *final(volume), r) == video_event_spec(
            zoom_state(*old(zoomer)),
            *old(volume),
            event,
        ),
        final(zoomer).spec_converter() == old(zoomer).spec_converter(),
{
    match event {
        Event::Char(' ') => VideoAction::TogglePause,
        Event::Left => VideoAction::SeekBack,
        Event::Right => VideoAction::SeekForward,
        Event::Up => {
            if *volume + 1 < 10 {
                *volume = *volume + 1;
            }
            VideoAction::SetVolume(*volume)
        },
        Event::Down => {
            if *volume > 1 {
                *volume = *volume - 1;
            }
            VideoAction::SetVolume(*volume)
        },
        _ => match handle_view_event(zoomer, event) {
            Action::Quit => VideoAction::Quit,
            Action::Redraw => VideoAction::Redraw,
            Action::Nothing => VideoAction::Nothing,
        },
    }
}

/// A small interactive image viewer: shows images resized to
/// `width x height` through `converter`.
#[derive(Clone, Copy, Debug)]
pub struct ImageViewer<C: Converter> {
    pub converter: C,
    pub width: u32,
    pub height: u32,
}

/// The image resized for a viewer of `width x height`.
pub open spec fn resized_view(image: FrameView, width: u32, height: u32) -> FrameView {
    FrameView {
        width,
        height,
        data: resized_nearest(image.data, image.width, image.height, width, height),
    }
}

impl<C: Converter> ImageViewer<C> {
    /// The text that shows `image` resized to the viewer's size, or `None`
    /// where the converter's encoding is done outside this library.
    pub fn render(&self, image: &Frame) -> (r: Option<Vec<u8>>)
        requires
            image.wf(),
            16 * (image.width as int) * (self.height as int) <= isize::MAX,
            16 * (self.width as int) * (self.height as int) <= isize::MAX,
        ensures
            match r {
                Some(v) => self.converter.spec_render(resized_view(image@, self.width, self.height))
                    == Some(v@),
                None => self.converter.spec_render(
                    resized_view(image@, self.width, self.height),
                ) is None,
            },
    {
        let resized = resize_nearest(image, self.width, self.height);
        proof {
            assert(resized@ =~= resized_view(image@, self.width, self.height));
        }
        self.converter.to_vec(&resized)
    }
}

} // verus!
