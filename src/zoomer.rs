//! Pan and zoom: maps a cursor in terminal cells and a zoom level to a crop
//! rectangle of the source image.

use crate::converters::Converter;
use crate::frame::{Frame, FrameView};
use vstd::arithmetic::div_mod::lemma_fundamental_div_mod_converse;
use vstd::prelude::*;

verus! {

/// A struct that helps with zooming.
#[derive(Debug)]
pub struct Zoomer<C: Converter> {
    x: u16,
    y: u16,
    level: u8,
    drag_start: Option<(u16, u16)>,
    converter: C,
}

/// The pan position after dragging from `anchor` to `to`: the position moves
/// against the drag, stops at 0, and is kept as a 16-bit value.
pub open spec fn dragged(pos: u16, anchor: u16, to: u16) -> u16 {
    let v = pos + anchor - to;
    if v < 0 {
        0
    } else if v <= u16::MAX {
        v as u16
    } else {
        (v - 0x10000) as u16
    }
}

/// `a - b`, or 0 where `b > a`.
pub open spec fn sat_sub(a: int, b: int) -> int {
    if a > b {
        a - b
    } else {
        0
    }
}

pub open spec fn min(a: int, b: int) -> int {
    if a < b {
        a
    } else {
        b
    }
}

/// Maps a coordinate of the resized image, `p` in `0..new`, back to the source
/// of size `old`; a point past the resized image maps to its edge.
pub open spec fn to_source(p: int, old: int, new: int) -> int {
    if new == 0 {
        0
    } else {
        min(p, new) * old / new
    }
}

/// The start of a crop of length `extent` centered on `p`, kept inside
/// `0..old`.
pub open spec fn crop_start(p: int, extent: int, old: int) -> int {
    min(sat_sub(p, extent / 2), old - extent)
}

/// The crop `(x, y, width, height)` for the pixel position `pos` of the
/// resized image, a zoom level in percent, a source of `old_width x
/// old_height` and a resized image of `new_width x new_height`.
pub open spec fn zoom_bounds(
    pos: (u32, u32),
    level: int,
    old_width: int,
    old_height: int,
    new_width: int,
    new_height: int,
) -> (int, int, int, int) {
    let extent_x = level * old_width / 100;
    let extent_y = level * old_height / 100;
    let x = to_source(pos.0 as int, old_width, new_width);
    let y = to_source(pos.1 as int, old_height, new_height);
    (crop_start(x, extent_x, old_width), crop_start(y, extent_y, old_height), extent_x, extent_y)
}

/// The three bytes of a color.
pub open spec fn rgb_bytes(c: (u8, u8, u8)) -> Seq<u8> {
    seq![c.0, c.1, c.2]
}

/// The bytes of the first `n` pixels of the `w`-wide crop of `image` whose
/// top left corner is `(x, y)`: pixel `k` of the crop is pixel
/// `(x + k % w, y + k / w)` of the image.
pub open spec fn crop_pixels(image: FrameView, x: int, y: int, w: int, n: nat) -> Seq<u8>
    decreases n,
{
    if n == 0 {
        seq![]
    } else {
        crop_pixels(image, x, y, w, (n - 1) as nat) + rgb_bytes(
            image.spec_rgb(x + (n - 1) % w, y + (n - 1) / w),
        )
    }
}

impl<C: Converter> Zoomer<C> {
    pub closed spec fn spec_pos(&self) -> (u16, u16) {
        (self.x, self.y)
    }

    pub closed spec fn spec_level(&self) -> u8 {
        self.level
    }

    /// The point where the current drag gesture was last seen, if one is in
    /// progress.
    pub closed spec fn spec_drag(&self) -> Option<(u16, u16)> {
        self.drag_start
    }

    pub closed spec fn spec_converter(&self) -> C {
        self.converter
    }

    /// The zoom level is a percentage from 1 to 100.
    pub open spec fn wf(&self) -> bool {
        1 <= self.spec_level() <= 100
    }

    /// Create a new zoomer, showing the whole image.
    pub fn new(converter: C) -> (r: Self)
        ensures
            r.wf(),
            r.spec_pos() == (0u16, 0u16),
            r.spec_level() == 100,
            r.spec_drag() is None,
            r.spec_converter() == converter,
    {
        Zoomer { x: 0, y: 0, level: 100, drag_start: None, converter }
    }

    /// Set where on the image to zoom into.
    pub fn set_pos(&mut self, x: u16, y: u16)
        ensures
            final(self).spec_pos() == (x, y),
            final(self).spec_level() == old(self).spec_level(),
            final(self).spec_drag() == old(self).spec_drag(),
            final(self).spec_converter() == old(self).spec_converter(),
    {
        self.x = x;
        self.y = y;
    }

    /// Set zoom level in percent (100% shows whole image), clamped to 1..=100.
    pub fn set_level(&mut self, level: u8)
        ensures
            final(self).wf(),
            final(self).spec_level() == (if level < 1 {
                1
            } else if level > 100 {
                100
            } else {
                level
            }),
            final(self).spec_pos() == old(self).spec_pos(),
            final(self).spec_drag() == old(self).spec_drag(),
            final(self).spec_converter() == old(self).spec_converter(),
    {
        self.level = if level < 1 {
            1
        } else if level > 100 {
            100
        } else {
            level
        };
    }

    /// Start dragging from x and y.
    pub fn drag_start(&mut self, x: u16, y: u16)
        ensures
            final(self).spec_drag() == Some((x, y)),
            final(self).spec_pos() == old(self).spec_pos(),
            final(self).spec_level() == old(self).spec_level(),
            final(self).spec_converter() == old(self).spec_converter(),
    {
        self.drag_start = Some((x, y));
    }

    /// Drag to x and y: the view moves against the drag, and the drag point
    /// becomes `(x, y)`. Without a drag in progress nothing changes.
    pub fn drag_move(&mut self, x: u16, y: u16)
        ensures
            final(self).spec_level() == old(self).spec_level(),
            final(self).spec_converter() == old(self).spec_converter(),
            match old(self).spec_drag() {
                Some(anchor) => {
                    &&& final(self).spec_pos() == (
                        dragged(old(self).spec_pos().0, anchor.0, x),
                        dragged(old(self).spec_pos().1, anchor.1, y),
                    )
                    &&& final(self).spec_drag() == Some((x, y))
                },
                None => {
                    &&& final(self).spec_pos() == old(self).spec_pos()
                    &&& final(self).spec_drag() is None
                },
            },
    {
        if let Some((drag_x, drag_y)) = self.drag_start {
            self.x = drag_axis(self.x, drag_x, x);
            self.y = drag_axis(self.y, drag_y, y);
            self.drag_start = Some((x, y));
        }
    }

    /// Stop dragging.
    pub fn drag_stop(&mut self)
        ensures
            final(self).spec_drag() is None,
            final(self).spec_pos() == old(self).spec_pos(),
            final(self).spec_level() == old(self).spec_level(),
            final(self).spec_converter() == old(self).spec_converter(),
    {
        self.drag_start = None;
    }

    pub fn pos(&self) -> (r: (u16, u16))
        ensures
            r == self.spec_pos(),
    {
        (self.x, self.y)
    }

    pub fn level(&self) -> (r: u8)
        ensures
            r == self.spec_level(),
    {
        self.level
    }

    pub fn is_dragging(&self) -> (r: bool)
        ensures
            r == self.spec_drag() is Some,
    {
        self.drag_start.is_some()
    }

    /// The crop `(x, y, width, height)` that `bounds` returns.
    pub open spec fn spec_bounds(
        &self,
        old_width: u32,
        old_height: u32,
        new_width: u32,
        new_height: u32,
    ) -> (int, int, int, int) {
        zoom_bounds(
            self.spec_converter().spec_actual_pos(self.spec_pos().0 as u32, self.spec_pos().1 as u32),
            self.spec_level() as int,
            old_width as int,
            old_height as int,
            new_width as int,
            new_height as int,
        )
    }

    /// Return the bounds to crop the image to.
    /// old_width/old_height are the size of the source image.
    /// new_width/new_height are what the image will be resized to after the zoom.
    /// These can be left the same as the old if no resize occurs.
    pub fn bounds(&self, old_width: u32, old_height: u32, new_width: u32, new_height: u32) -> (r: (
        u32,
        u32,
        u32,
        u32,
    ))
        requires
            self.wf(),
        ensures
            (r.0 as int, r.1 as int, r.2 as int, r.3 as int) == self.spec_bounds(
                old_width,
                old_height,
                new_width,
                new_height,
            ),
            r.0 + r.2 <= old_width,
            r.1 + r.3 <= old_height,
    {
        let (x, y) = self.converter.actual_pos(self.x as u32, self.y as u32);
        let x = scale_to_source(x, old_width, new_width);
        let y = scale_to_source(y, old_height, new_height);
        let extent_x = percent_of(self.level, old_width);
        let extent_y = percent_of(self.level, old_height);
        let x = start_of_crop(x, extent_x, old_width);
        let y = start_of_crop(y, extent_y, old_height);
        (x, y, extent_x, extent_y)
    }

    /// Zoom the image: the part of it within `bounds`. This should be done
    /// before any resize. new_width/new_height are what the image will be
    /// resized to after the zoom.
    pub fn crop(&self, image: &Frame, new_width: u32, new_height: u32) -> (r: Frame)
        requires
            self.wf(),
            image.wf(),
        ensures
            ({
                let b = self.spec_bounds(image.width, image.height, new_width, new_height);
                &&& r.wf()
                &&& r.width == b.2
                &&& r.height == b.3
                &&& r.data@ == crop_pixels(image@, b.0, b.1, b.2, (b.2 * b.3) as nat)
            }),
    {
        let (x0, y0, w, h) = self.bounds(image.width, image.height, new_width, new_height);
        let mut data: Vec<u8> = Vec::new();
        let mut j: u32 = 0;
        while j < h
            invariant
                image.wf(),
                x0 + w <= image.width,
                y0 + h <= image.height,
                j <= h,
                data@ == crop_pixels(image@, x0 as int, y0 as int, w as int, (j * w) as nat),
            decreases h - j,
        {
            let mut i: u32 = 0;
            while i < w
                invariant
                    image.wf(),
                    x0 + w <= image.width,
                    y0 + h <= image.height,
                    j < h,
                    i <= w,
                    data@ == crop_pixels(image@, x0 as int, y0 as int, w as int, (j * w + i) as nat),
                decreases w - i,
            {
                let c = image.rgb(x0 + i, y0 + j);
                data.push(c.0);
                data.push(c.1);
                data.push(c.2);
                proof {
                    let n: int = (j as int) * (w as int) + (i as int);
                    assert((j as int) * (w as int) + (i as int) >= 0) by (nonlinear_arith)
                        requires
                            j >= 0,
                            w >= 0,
                            i >= 0,
                    ;
                    lemma_fundamental_div_mod_converse(n, w as int, j as int, i as int);
                    assert(data@ =~= crop_pixels(image@, x0 as int, y0 as int, w as int, (n + 1) as nat));
                }
                i += 1;
            }
            proof {
                assert(j * w + w == (j + 1) * w) by (nonlinear_arith);
            }
            j += 1;
        }
        proof {
            assert(3 * (w as int) * (h as int) == 3 * ((h as int) * (w as int))) by (nonlinear_arith);
            lemma_crop_len(image@, x0 as int, y0 as int, w as int, (h * w) as nat);
        }
        Frame { width: w, height: h, data }
    }
}

/// The crop holds three bytes per pixel.
pub proof fn lemma_crop_len(image: FrameView, x: int, y: int, w: int, n: nat)
    ensures
        crop_pixels(image, x, y, w, n).len() == 3 * n,
    decreases n,
{
    if n > 0 {
        lemma_crop_len(image, x, y, w, (n - 1) as nat);
    }
}

fn drag_axis(pos: u16, anchor: u16, to: u16) -> (r: u16)
    ensures
        r == dragged(pos, anchor, to),
{
    let v: i32 = pos as i32 + anchor as i32 - to as i32;
    if v < 0 {
        0
    } else if v <= 0xffff {
        v as u16
    } else {
        (v - 0x10000) as u16
    }
}

fn scale_to_source(p: u32, old: u32, new: u32) -> (r: u32)
    ensures
        r == to_source(p as int, old as int, new as int),
        r <= old,
{
    if new == 0 {
        0
    } else {
        let m: u64 = if p < new {
            p as u64
        } else {
            new as u64
        };
        proof {
            assert(m * (old as int) <= (new as int) * (old as int)) by (nonlinear_arith)
                requires
                    m <= new,
                    0 <= old,
            ;
            assert(m * (old as int) / (new as int) <= old as int) by (nonlinear_arith)
                requires
                    m * (old as int) <= (new as int) * (old as int),
                    new > 0,
            ;
            assert((new as int) * (old as int) <= u32::MAX * u32::MAX) by (nonlinear_arith)
                requires
                    new <= u32::MAX,
                    old <= u32::MAX,
            ;
        }
        (m * old as u64 / new as u64) as u32
    }
}

fn percent_of(level: u8, n: u32) -> (r: u32)
    requires
        level <= 100,
    ensures
        r == (level as int) * (n as int) / 100,
        r <= n,
{
    proof {
        assert((level as int) * (n as int) <= 100 * (n as int)) by (nonlinear_arith)
            requires
                level <= 100,
                0 <= n,
        ;
    }
    (level as u64 * n as u64 / 100) as u32
}

fn start_of_crop(p: u32, extent: u32, old: u32) -> (r: u32)
    requires
        extent <= old,
    ensures
        r == crop_start(p as int, extent as int, old as int),
{
    let s = p.saturating_sub(extent / 2);
    let limit = old - extent;
    if s < limit {
        s
    } else {
        limit
    }
}

} // verus!
