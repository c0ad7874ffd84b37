//! The half-block converter: two pixel rows per terminal row.

use crate::converters::{push_bytes, push_rgb_params, rgb_params, sgr_bg24, sgr_fg24, sgr_reset, Converter};
use crate::frame::{Frame, FrameView};
use vstd::prelude::*;

verus! {

/// Upper half blocks: the upper pixel as foreground, the lower one as
/// background, so one terminal row shows two rows of the image.
#[derive(Clone, Copy, Debug)]
pub struct HalfBlock;

/// The color below pixel `(x, 2 * row)`, black past the last row.
pub open spec fn lower_rgb(f: FrameView, x: int, row: int) -> (u8, u8, u8) {
    if 2 * row + 1 < f.height {
        f.spec_rgb(x, 2 * row + 1)
    } else {
        (0u8, 0u8, 0u8)
    }
}

/// The text for one cell: upper color, lower color, then `▀`.
pub open spec fn halfblock_cell(upper: (u8, u8, u8), lower: (u8, u8, u8)) -> Seq<u8> {
    sgr_fg24() + rgb_params(upper) + seq![109u8] + sgr_bg24() + rgb_params(lower) + seq![
        109u8,
        0xe2,
        0x96,
        0x80,
    ]
}

/// The cells of the first `n` columns of terminal row `row`.
pub open spec fn halfblock_cells(f: FrameView, row: int, n: nat) -> Seq<u8>
    decreases n,
{
    if n == 0 {
        seq![]
    } else {
        halfblock_cells(f, row, (n - 1) as nat) + halfblock_cell(
            f.spec_rgb(n - 1, 2 * row),
            lower_rgb(f, n - 1, row),
        )
    }
}

/// The number of terminal rows for an image of height `h`.
pub open spec fn halfblock_row_count(h: nat) -> nat {
    (h + 1) / 2
}

/// The text of the first `k` terminal rows; rows are separated by `\r\n`
/// and each one ends with a reset.
pub open spec fn halfblock_rows(f: FrameView, k: nat) -> Seq<u8>
    decreases k,
{
    if k == 0 {
        seq![]
    } else {
        halfblock_rows(f, (k - 1) as nat) + (if k > 1 {
            seq![13u8, 10]
        } else {
            seq![]
        }) + halfblock_cells(f, k - 1, f.width as nat) + sgr_reset()
    }
}

impl Converter for HalfBlock {
    open spec fn spec_actual_pos(&self, x: u32, y: u32) -> (u32, u32) {
        (x, (y * 2) as u32)
    }

    open spec fn spec_render(&self, image: FrameView) -> Option<Seq<u8>> {
        Some(halfblock_rows(image, halfblock_row_count(image.height as nat)))
    }

    fn actual_pos(&self, x: u32, y: u32) -> (r: (u32, u32)) {
        (x, y * 2)
    }

    fn to_vec(&self, image: &Frame) -> (r: Option<Vec<u8>>) {
        let rows: u32 = image.height / 2 + image.height % 2;
        let mut out: Vec<u8> = Vec::new();
        let mut row: u32 = 0;
        while row < rows
            invariant
                image.wf(),
                rows == halfblock_row_count(image.height as nat),
                row <= rows,
                out@ == halfblock_rows(image@, row as nat),
            decreases rows - row,
        {
            if row > 0 {
                push_bytes(&mut out, &[13u8, 10]);
            }
            let before = Ghost(out@);
            let y = row * 2;
            let mut x: u32 = 0;
            while x < image.width
                invariant
                    image.wf(),
                    row < rows,
                    rows == halfblock_row_count(image.height as nat),
                    y == 2 * row,
                    x <= image.width,
                    out@ == before@ + halfblock_cells(image@, row as int, x as nat),
                decreases image.width - x,
            {
                let upper = image.rgb(x, y);
                let lower = if y + 1 < image.height {
                    image.rgb(x, y + 1)
                } else {
                    (0u8, 0u8, 0u8)
                };
                push_bytes(&mut out, &[27u8, 91, 51, 56, 59, 50, 59]);
                push_rgb_params(&mut out, upper);
                push_bytes(&mut out, &[109u8, 27, 91, 52, 56, 59, 50, 59]);
                push_rgb_params(&mut out, lower);
                push_bytes(&mut out, &[109u8, 0xe2, 0x96, 0x80]);
                x += 1;
                proof {
                    assert(out@ =~= before@ + halfblock_cells(image@, row as int, x as nat));
                }
            }
            push_bytes(&mut out, &[27u8, 91, 48, 109]);
            row += 1;
            proof {
                assert(out@ =~= halfblock_rows(image@, row as nat));
            }
        }
        Some(out)
    }
}

} // verus!
