//! The 24-bit color converter: one space per pixel, on the pixel's color.

use crate::converters::{push_bytes, push_rgb_params, rgb_params, sgr_bg24, sgr_reset, Converter};
use crate::frame::{Frame, FrameView};
use vstd::prelude::*;

verus! {

/// 24-bit background colors; one terminal cell per pixel.
#[derive(Clone, Copy, Debug)]
pub struct TrueColor;

/// The text for one pixel: its color as background, then a space.
pub open spec fn truecolor_cell(c: (u8, u8, u8)) -> Seq<u8> {
    sgr_bg24() + rgb_params(c) + seq![109u8, 32]
}

/// The cells of the first `n` pixels of row `y`.
pub open spec fn truecolor_cells(f: FrameView, y: int, n: nat) -> Seq<u8>
    decreases n,
{
    if n == 0 {
        seq![]
    } else {
        truecolor_cells(f, y, (n - 1) as nat) + truecolor_cell(f.spec_rgb(n - 1, y))
    }
}

/// The text of the first `k` rows: each row's cells, a reset and `\r\n`.
pub open spec fn truecolor_rows(f: FrameView, k: nat) -> Seq<u8>
    decreases k,
{
    if k == 0 {
        seq![]
    } else {
        truecolor_rows(f, (k - 1) as nat) + truecolor_cells(f, k - 1, f.width as nat) + sgr_reset()
            + seq![13u8, 10]
    }
}

impl Converter for TrueColor {
    open spec fn spec_actual_pos(&self, x: u32, y: u32) -> (u32, u32) {
        (x, y)
    }

    open spec fn spec_render(&self, image: FrameView) -> Option<Seq<u8>> {
        Some(truecolor_rows(image, image.height as nat))
    }

    fn actual_pos(&self, x: u32, y: u32) -> (r: (u32, u32)) {
        (x, y)
    }

    fn to_vec(&self, image: &Frame) -> (r: Option<Vec<u8>>) {
        let mut out: Vec<u8> = Vec::new();
        let mut y: u32 = 0;
        while y < image.height
            invariant
                image.wf(),
                y <= image.height,
                out@ == truecolor_rows(image@, y as nat),
            decreases image.height - y,
        {
            let mut x: u32 = 0;
            while x < image.width
                invariant
                    image.wf(),
                    y < image.height,
                    x <= image.width,
                    out@ == truecolor_rows(image@, y as nat) + truecolor_cells(image@, y as int, x as nat),
                decreases image.width - x,
            {
                let c = image.rgb(x, y);
                push_bytes(&mut out, &[27u8, 91, 52, 56, 59, 50, 59]);
                push_rgb_params(&mut out, c);
                push_bytes(&mut out, &[109u8, 32]);
                x += 1;
                proof {
                    assert(out@ =~= truecolor_rows(image@, y as nat) + truecolor_cells(image@, y as int, x as nat));
                }
            }
            push_bytes(&mut out, &[27u8, 91, 48, 109, 13, 10]);
            y += 1;
            proof {
                assert(out@ =~= truecolor_rows(image@, y as nat));
            }
        }
        Some(out)
    }
}

} // verus!
