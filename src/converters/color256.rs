//! The 256-color converter: each pixel becomes a block in the nearest color
//! of the xterm 256-color palette.

use crate::converters::{decimal, push_bytes, push_decimal, sgr_reset, Converter};
use crate::frame::{Frame, FrameView};
use vstd::prelude::*;

verus! {

/// xterm 256-color foreground; one terminal cell per pixel.
#[derive(Clone, Copy, Debug)]
pub struct Color256;

/// The channel value of step `k` (0 to 5) of the 6 x 6 x 6 color cube.
pub open spec fn cube_level(k: int) -> int {
    if k == 0 {
        0
    } else {
        55 + 40 * k
    }
}

/// The color of palette entry `i` (0 to 255): sixteen system colors, the
/// color cube from 16 to 231, and a gray ramp from 232 to 255.
pub open spec fn palette_rgb(i: int) -> (int, int, int) {
    if i == 0 {
        (0, 0, 0)
    } else if i == 1 {
        (128, 0, 0)
    } else if i == 2 {
        (0, 128, 0)
    } else if i == 3 {
        (128, 128, 0)
    } else if i == 4 {
        (0, 0, 128)
    } else if i == 5 {
        (128, 0, 128)
    } else if i == 6 {
        (0, 128, 128)
    } else if i == 7 {
        (192, 192, 192)
    } else if i == 8 {
        (128, 128, 128)
    } else if i == 9 {
        (255, 0, 0)
    } else if i == 10 {
        (0, 255, 0)
    } else if i == 11 {
        (255, 255, 0)
    } else if i == 12 {
        (0, 0, 255)
    } else if i == 13 {
        (255, 0, 255)
    } else if i == 14 {
        (0, 255, 255)
    } else if i == 15 {
        (255, 255, 255)
    } else if i < 232 {
        let c = i - 16;
        (cube_level(c / 36), cube_level(c / 6 % 6), cube_level(c % 6))
    } else {
        let v = 8 + 10 * (i - 232);
        (v, v, v)
    }
}

/// The entries that a pixel may be mapped to. Entries 0 and 8 to 15 repeat
/// colors of the cube and of the gray ramp; each color keeps its later entry,
/// so every color of the palette has exactly one entry.
pub open spec fn in_palette(i: int) -> bool {
    (1 <= i <= 7) || (16 <= i <= 255)
}

/// Summed absolute channel difference between pixel `p` and entry `i`.
pub open spec fn distance(p: (u8, u8, u8), i: int) -> int {
    let c = palette_rgb(i);
    abs(p.0 - c.0) + abs(p.1 - c.1) + abs(p.2 - c.2)
}

pub open spec fn abs(v: int) -> int {
    if v < 0 {
        -v
    } else {
        v
    }
}

/// Entry `i` is the first entry of the palette at the least distance from `p`.
pub open spec fn is_nearest(p: (u8, u8, u8), i: int) -> bool {
    &&& in_palette(i)
    &&& forall|j: int| #[trigger] in_palette(j) ==> distance(p, i) <= distance(p, j)
    &&& forall|j: int| #[trigger] in_palette(j) && j < i ==> distance(p, i) < distance(p, j)
}

fn cube_level_u8(k: u8) -> (r: u8)
    requires
        k < 6,
    ensures
        r == cube_level(k as int),
{
    if k == 0 {
        0
    } else {
        55 + 40 * k
    }
}

/// The color of palette entry `i`.
pub fn palette_color(i: u8) -> (r: (u8, u8, u8))
    ensures
        (r.0 as int, r.1 as int, r.2 as int) == palette_rgb(i as int),
{
    if i < 16 {
        let table: [(u8, u8, u8); 16] = [
            (0, 0, 0),
            (128, 0, 0),
            (0, 128, 0),
            (128, 128, 0),
            (0, 0, 128),
            (128, 0, 128),
            (0, 128, 128),
            (192, 192, 192),
            (128, 128, 128),
            (255, 0, 0),
            (0, 255, 0),
            (255, 255, 0),
            (0, 0, 255),
            (255, 0, 255),
            (0, 255, 255),
            (255, 255, 255),
        ];
        table[i as usize]
    } else if i < 232 {
        let c = i - 16;
        (cube_level_u8(c / 36), cube_level_u8(c / 6 % 6), cube_level_u8(c % 6))
    } else {
        let v = 8 + 10 * (i - 232);
        (v, v, v)
    }
}

fn abs_diff(a: u8, b: u8) -> (r: u16)
    ensures
        r == abs(a - b),
{
    if a >= b {
        (a - b) as u16
    } else {
        (b - a) as u16
    }
}

/// Distance between pixel `p` and palette entry `i`.
pub fn color_distance(p: (u8, u8, u8), i: u8) -> (r: u16)
    ensures
        r == distance(p, i as int),
{
    let c = palette_color(i);
    abs_diff(p.0, c.0) + abs_diff(p.1, c.1) + abs_diff(p.2, c.2)
}

/// The palette entry nearest to `p`; among equally near entries, the lowest.
pub fn nearest_color(p: (u8, u8, u8)) -> (r: u8)
    ensures
        is_nearest(p, r as int),
{
    let mut best: u8 = 1;
    let mut best_d: u16 = color_distance(p, 1);
    let mut i: u16 = 2;
    while i < 256
        invariant
            2 <= i <= 256,
            in_palette(best as int),
            best < i,
            best_d == distance(p, best as int),
            forall|j: int| #[trigger] in_palette(j) && j < i ==> best_d <= distance(p, j),
            forall|j: int| #[trigger] in_palette(j) && j < best ==> best_d < distance(p, j),
        decreases 256 - i,
    {
        if i <= 7 || i >= 16 {
            let d = color_distance(p, i as u8);
            if d < best_d {
                best = i as u8;
                best_d = d;
            }
        }
        i += 1;
    }
    best
}

/// The text for one pixel: the foreground color of its entry, then `█`.
pub open spec fn color256_cell(p: (u8, u8, u8), index: u8) -> Seq<u8> {
    seq![27u8, 91, 51, 56, 59, 53, 59] + decimal(index as nat) + seq![109u8, 0xe2, 0x96, 0x88]
}

/// The nearest entry to `p`, as a spec value.
pub open spec fn spec_nearest(p: (u8, u8, u8)) -> u8 {
    choose|i: u8| is_nearest(p, i as int)
}

/// The cells of the first `n` pixels of row `y`.
pub open spec fn color256_cells(f: FrameView, y: int, n: nat) -> Seq<u8>
    decreases n,
{
    if n == 0 {
        seq![]
    } else {
        color256_cells(f, y, (n - 1) as nat) + color256_cell(
            f.spec_rgb(n - 1, y),
            spec_nearest(f.spec_rgb(n - 1, y)),
        )
    }
}

/// The text of the first `k` rows: each row's cells, a reset and `\r\n`.
pub open spec fn color256_rows(f: FrameView, k: nat) -> Seq<u8>
    decreases k,
{
    if k == 0 {
        seq![]
    } else {
        color256_rows(f, (k - 1) as nat) + color256_cells(f, k - 1, f.width as nat) + sgr_reset()
            + seq![13u8, 10]
    }
}

proof fn lemma_cube_digits(c: int)
    requires
        0 <= c < 216,
    ensures
        c == 36 * (c / 36) + 6 * (c / 6 % 6) + c % 6,
        0 <= c / 36 < 6,
        0 <= c / 6 % 6 < 6,
        0 <= c % 6 < 6,
{
    assert(c / 36 == c / 6 / 6) by (nonlinear_arith)
        requires
            0 <= c,
    ;
}

/// Different entries that a pixel may be mapped to have different colors.
pub proof fn lemma_palette_injective(i: int, j: int)
    requires
        in_palette(i),
        in_palette(j),
        palette_rgb(i) == palette_rgb(j),
    ensures
        i == j,
{
    if 16 <= i < 232 && 16 <= j < 232 {
        lemma_cube_digits(i - 16);
        lemma_cube_digits(j - 16);
    }
}

/// At most one entry is the nearest to a pixel.
pub proof fn lemma_nearest_unique(p: (u8, u8, u8), i: int, j: int)
    requires
        is_nearest(p, i),
        is_nearest(p, j),
    ensures
        i == j,
{
    assert(in_palette(i) && in_palette(j));
    if i < j {
        assert(distance(p, j) < distance(p, i));
    } else if j < i {
        assert(distance(p, i) < distance(p, j));
    }
}

/// The entry that `nearest_color` returns is the one that `spec_nearest` names.
proof fn lemma_spec_nearest(p: (u8, u8, u8), r: u8)
    requires
        is_nearest(p, r as int),
    ensures
        spec_nearest(p) == r,
{
    let c = spec_nearest(p);
    assert(is_nearest(p, c as int));
    lemma_nearest_unique(p, c as int, r as int);
}

/// A pixel whose color is that of an entry of the palette is mapped to that
/// entry, at distance zero.
pub proof fn lemma_exact_color_is_own_entry(p: (u8, u8, u8), i: int)
    requires
        in_palette(i),
        (p.0 as int, p.1 as int, p.2 as int) == palette_rgb(i),
    ensures
        is_nearest(p, i),
        distance(p, i) == 0,
{
    assert forall|j: int| #[trigger] in_palette(j) && j < i implies distance(p, i) < distance(
        p,
        j,
    ) by {
        if distance(p, j) == 0 {
            lemma_palette_injective(i, j);
        }
    }
}

impl Converter for Color256 {
    open spec fn spec_actual_pos(&self, x: u32, y: u32) -> (u32, u32) {
        (x, y)
    }

    open spec fn spec_render(&self, image: FrameView) -> Option<Seq<u8>> {
        Some(color256_rows(image, image.height as nat))
    }

    fn actual_pos(&self, x: u32, y: u32) -> (r: (u32, u32)) {
        (x, y)
    }

    fn to_vec(&self, image: &Frame) -> (r: Option<Vec<u8>>) {
        let mut out: Vec<u8> = Vec::new();
        let mut y: u32 = 0;
        while y < image.height
            invariant
                image.wf(),
                y <= image.height,
                out@ == color256_rows(image@, y as nat),
            decreases image.height - y,
        {
            let mut x: u32 = 0;
            while x < image.width
                invariant
                    image.wf(),
                    y < image.height,
                    x <= image.width,
                    out@ == color256_rows(image@, y as nat) + color256_cells(image@, y as int, x as nat),
                decreases image.width - x,
            {
                let c = image.rgb(x, y);
                let index = nearest_color(c);
                proof {
                    lemma_spec_nearest(c, index);
                }
                push_bytes(&mut out, &[27u8, 91, 51, 56, 59, 53, 59]);
                push_decimal(&mut out, index);
                push_bytes(&mut out, &[109u8, 0xe2, 0x96, 0x88]);
                x += 1;
                proof {
                    assert(out@ =~= color256_rows(image@, y as nat) + color256_cells(image@, y as int, x as nat));
                }
            }
            push_bytes(&mut out, &[27u8, 91, 48, 109, 13, 10]);
            y += 1;
            proof {
                assert(out@ =~= color256_rows(image@, y as nat));
            }
        }
        Some(out)
    }
}

} // verus!
