//! Resizing arithmetic: fitting a source into a box while keeping its aspect
//! ratio, and correcting for terminal fonts whose cells are not square.

use vstd::prelude::*;

verus! {

/// Largest `(w, h)` that fits in `new_width x new_height` with the aspect
/// ratio of `old_width x old_height`; the computed side is rounded down.
/// When the box is wider than the source, the height binds; otherwise the
/// width binds.
pub open spec fn aspect_fit(old_width: nat, old_height: nat, new_width: nat, new_height: nat) -> (
    nat,
    nat,
) {
    if new_width * old_height > old_width * new_height {
        ((old_width * new_height / old_height) as nat, new_height)
    } else if old_width == 0 {
        (new_width, 0)
    } else {
        (new_width, (old_height * new_width / old_width) as nat)
    }
}

/// `n` scaled by `1 + ratio / 100`, rounded down.
pub open spec fn stretched(n: nat, ratio: nat) -> nat {
    (n * (100 + ratio) / 100) as nat
}

/// `n` scaled by `1 / (1 + ratio / 100)`, rounded down.
pub open spec fn shrunk(n: nat, ratio: nat) -> nat {
    (n * 100 / (100 + ratio)) as nat
}

/// The font-ratio correction: stretch the width by the ratio if it stays
/// within `max_width`, otherwise keep the width and shrink the height.
pub open spec fn pixel_ratio(ratio: nat, width: nat, height: nat, max_width: nat) -> (nat, nat) {
    if stretched(width, ratio) <= max_width {
        (stretched(width, ratio), height)
    } else {
        (width, shrunk(height, ratio))
    }
}

/// Calculate the maximum width/height that fits within new_width/new_height,
/// but still keeps the aspect ratio.
pub fn keep_aspect_ratio(old_width: u32, old_height: u32, new_width: u32, new_height: u32) -> (r: (
    u32,
    u32,
))
    ensures
        (r.0 as nat, r.1 as nat) == aspect_fit(
            old_width as nat,
            old_height as nat,
            new_width as nat,
            new_height as nat,
        ),
{
    let ow = old_width as u64;
    let oh = old_height as u64;
    let nw = new_width as u64;
    let nh = new_height as u64;
    proof {
        assert(nw * oh <= u32::MAX * u32::MAX) by (nonlinear_arith)
            requires nw <= u32::MAX, oh <= u32::MAX;
        assert(ow * nh <= u32::MAX * u32::MAX) by (nonlinear_arith)
            requires ow <= u32::MAX, nh <= u32::MAX;
        assert(oh * nw <= u32::MAX * u32::MAX) by (nonlinear_arith)
            requires nw <= u32::MAX, oh <= u32::MAX;
    }
    if nw * oh > ow * nh {
        // the box is wider than the source: the height binds
        let w = ow * nh / oh;
        proof {
                assert((ow as int) * (nh as int) / (oh as int) < nw as int) by (nonlinear_arith)
                requires (nw as int) * (oh as int) > (ow as int) * (nh as int), oh > 0;
        }
        (w as u32, new_height)
    } else if ow == 0 {
        (new_width, 0)
    } else {
        // the box is taller than the source: the width binds
        let h = oh * nw / ow;
        proof {
                assert((oh as int) * (nw as int) / (ow as int) <= nh as int) by (nonlinear_arith)
                requires (nw as int) * (oh as int) <= (ow as int) * (nh as int), ow > 0;
        }
        (new_width, h as u32)
    }
}

/// Stretch `width` by `1 + ratio / 100`, saturating at `u32::MAX`.
pub fn with_font_ratio(width: u32, ratio: u8) -> (r: u32)
    ensures
        r == (if stretched(width as nat, ratio as nat) <= u32::MAX {
            stretched(width as nat, ratio as nat)
        } else {
            u32::MAX as nat
        }),
{
    let w = width as u64;
    let f = 100 + ratio as u64;
    proof {
        assert(w * f <= u32::MAX * 355) by (nonlinear_arith)
            requires w <= u32::MAX, f <= 355;
    }
    let s = w * f / 100;
    if s <= u32::MAX as u64 {
        s as u32
    } else {
        u32::MAX
    }
}

/// Expand width to better match with the font ratio, unless it becomes more
/// than max_width, which in case it instead shrinks the height.
pub fn apply_pixel_ratio(ratio: u8, width: u32, height: u32, max_width: u32) -> (r: (u32, u32))
    ensures
        (r.0 as nat, r.1 as nat) == pixel_ratio(
            ratio as nat,
            width as nat,
            height as nat,
            max_width as nat,
        ),
{
    let f = 100 + ratio as u64;
    let w = width as u64;
    let h = height as u64;
    proof {
        assert(w * f <= u32::MAX * 355) by (nonlinear_arith)
            requires w <= u32::MAX, f <= 355;
        assert((h as int) * 100 / (f as int) <= h as int) by (nonlinear_arith)
            requires f >= 100, h >= 0;
    }
    let new_width = w * f / 100;
    if new_width <= max_width as u64 {
        (new_width as u32, height)
    } else {
        (width, (h * 100 / f) as u32)
    }
}

/// Fitting is idempotent: a size that was fitted into a box fits into that box
/// unchanged. (A box of height 0 is left out: `(1, 1)` into a `5 x 0` box gives
/// `(0, 0)`, which then gives `(5, 0)`.)
pub proof fn lemma_aspect_fit_idempotent(old_width: nat, old_height: nat, box_width: nat, box_height: nat)
    requires
        box_height > 0,
    ensures
        ({
            let r = aspect_fit(old_width, old_height, box_width, box_height);
            aspect_fit(r.0, r.1, box_width, box_height) == r
        }),
{
    let r = aspect_fit(old_width, old_height, box_width, box_height);
    if box_width * old_height > old_width * box_height {
        assert(old_width * box_height / old_height < box_width) by (nonlinear_arith)
            requires
                box_width * old_height > old_width * box_height,
                old_height > 0,
        ;
        assert(box_width * box_height > r.0 * box_height) by (nonlinear_arith)
            requires
                r.0 < box_width,
                box_height > 0,
        ;
        assert(r.0 * box_height / box_height == r.0) by (nonlinear_arith)
            requires
                box_height > 0,
        ;
    } else if old_width == 0 {
        if box_width > 0 {
            assert(0 * box_width / box_width == 0) by (nonlinear_arith)
                requires
                    box_width > 0,
            ;
        }
    } else {
        assert(old_height * box_width / old_width <= box_height) by (nonlinear_arith)
            requires
                box_width * old_height <= old_width * box_height,
                old_width > 0,
        ;
        assert(box_width * r.1 <= box_width * box_height) by (nonlinear_arith)
            requires
                r.1 <= box_height,
        ;
        if box_width > 0 {
            assert(r.1 * box_width / box_width == r.1) by (nonlinear_arith)
                requires
                    box_width > 0,
            ;
        } else {
            assert(old_height * 0 / old_width == 0) by (nonlinear_arith)
                requires
                    old_width > 0,
            ;
        }
    }
}

/// For positive sizes the fitted size lies inside the box, one side fills the
/// box, and the other side is the exact proportional length rounded down.
pub proof fn lemma_aspect_fit_in_box(old_width: nat, old_height: nat, box_width: nat, box_height: nat)
    requires
        old_width > 0,
        old_height > 0,
        box_width > 0,
        box_height > 0,
    ensures
        ({
            let (w, h) = aspect_fit(old_width, old_height, box_width, box_height);
            &&& w <= box_width
            &&& h <= box_height
            &&& ((h == box_height && w * old_height <= old_width * h < (w + 1) * old_height) || (w
                == box_width && h * old_width <= old_height * w < (h + 1) * old_width))
        }),
{
    let (w, h) = aspect_fit(old_width, old_height, box_width, box_height);
    if box_width * old_height > old_width * box_height {
        assert(old_width * box_height / old_height < box_width) by (nonlinear_arith)
            requires
                box_width * old_height > old_width * box_height,
                old_height > 0,
        ;
        assert(w * old_height <= old_width * box_height < (w + 1) * old_height) by (nonlinear_arith)
            requires
                w == old_width * box_height / old_height,
                old_height > 0,
        ;
    } else {
        assert(old_height * box_width / old_width <= box_height) by (nonlinear_arith)
            requires
                box_width * old_height <= old_width * box_height,
                old_width > 0,
        ;
        assert(h * old_width <= old_height * box_width < (h + 1) * old_width) by (nonlinear_arith)
            requires
                h == old_height * box_width / old_width,
                old_width > 0,
        ;
    }
}

/// Computes the destination size from a source size.
pub trait Sizer {
    /// The size that `get_size` returns for a source of the given size.
    spec fn spec_size(&self, old_width: u32, old_height: u32) -> (u32, u32);

    /// Return destination size from old width/height
    fn get_size(&self, old_width: u32, old_height: u32) -> (r: (u32, u32))
        ensures
            r == self.spec_size(old_width, old_height),
    ;
}

/// A `Sizer` which keeps the aspect ratio inside a box and optionally applies
/// the font ratio correction against the box width.
#[derive(Clone, Copy, Debug)]
pub struct StandardSizer {
    pub new_width: u32,
    pub new_height: u32,
    pub ratio: Option<u8>,
}

/// What `StandardSizer` computes, over mathematical integers.
pub open spec fn standard_size(s: StandardSizer, old_width: nat, old_height: nat) -> (nat, nat) {
    let fit = aspect_fit(old_width, old_height, s.new_width as nat, s.new_height as nat);
    match s.ratio {
        Some(ratio) => pixel_ratio(ratio as nat, fit.0, fit.1, s.new_width as nat),
        None => fit,
    }
}

impl Sizer for StandardSizer {
    open spec fn spec_size(&self, old_width: u32, old_height: u32) -> (u32, u32) {
        let r = standard_size(*self, old_width as nat, old_height as nat);
        (r.0 as u32, r.1 as u32)
    }

    fn get_size(&self, old_width: u32, old_height: u32) -> (r: (u32, u32)) {
        let (mut width, mut height) = keep_aspect_ratio(
            old_width,
            old_height,
            self.new_width,
            self.new_height,
        );
        if let Some(ratio) = self.ratio {
            let (w, h) = apply_pixel_ratio(ratio, width, height, self.new_width);
            width = w;
            height = h;
        }
        (width, height)
    }
}

} // verus!
