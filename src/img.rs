//! The text converters of the command-line tool: full blocks colored with
//! 24-bit or 256-color foregrounds, with rows dropped to make up for the font
//! ratio, and the size that images are fitted to.

use crate::converters::color256::{is_nearest, lemma_nearest_unique, nearest_color, spec_nearest};
use crate::converters::{decimal, push_bytes, push_decimal, push_rgb_params, rgb_params};
use crate::frame::{fitted_nearest, resize_to_fit, Frame, FrameView};
use crate::resizer::stretched;
use vstd::prelude::*;
use vstd::string::*;
use vstd::utf8::*;

verus! {

/// The converters of the command-line tool.
#[derive(Clone, Copy, Debug, PartialEq, Eq, Structural)]
pub enum Converter {
    TrueColor,
    Color256,
    Sixel,
}

/// Whether `s` and `t` hold the same characters.
fn same_text(s: &str, t: &str) -> (r: bool)
    ensures
        r == (s@ == t@),
{
    let n = s.unicode_len();
    if n != t.unicode_len() {
        return false;
    }
    let mut i: usize = 0;
    while i < n
        invariant
            n == s@.len(),
            n == t@.len(),
            i <= n,
            forall|k: int| 0 <= k < i ==> s@[k] == t@[k],
        decreases n - i,
    {
        if s.get_char(i) != t.get_char(i) {
            return false;
        }
        i += 1;
    }
    proof {
        assert(s@ =~= t@);
    }
    true
}

impl Converter {
    /// The converter named `truecolor`, `256-color` or `sixel`.
    pub fn parse(name: &str) -> (r: Option<Converter>)
        ensures
            r == (if name@ == "truecolor"@ {
                Some(Converter::TrueColor)
            } else if name@ == "256-color"@ {
                Some(Converter::Color256)
            } else if name@ == "sixel"@ {
                Some(Converter::Sixel)
            } else {
                None
            }),
    {
        if same_text(name, "truecolor") {
            Some(Converter::TrueColor)
        } else if same_text(name, "256-color") {
            Some(Converter::Color256)
        } else if same_text(name, "sixel") {
            Some(Converter::Sixel)
        } else {
            None
        }
    }
}

impl std::str::FromStr for Converter {
    type Err = ();

    fn from_str(converter: &str) -> Result<Self, Self::Err> {
        match Converter::parse(converter) {
            Some(c) => Ok(c),
            None => Err(()),
        }
    }
}

/// The size that an image is fitted to: the given width and height, each
/// taken from the terminal size when missing (40 x 20 when that is unknown
/// too). Sixel works on 10 x 10 pixels per cell; the other converters
/// stretch the height by the font ratio, as rows are dropped again when
/// converting.
pub fn fit_size(
    converter: Converter,
    width: Option<u16>,
    height: Option<u16>,
    terminal: Option<(u16, u16)>,
    ratio: u8,
) -> (r: (u32, u32))
    ensures
        r == fit_size_spec(converter, width, height, terminal, ratio),
{
    let term = match terminal {
        Some(t) => t,
        None => (40u16, 20u16),
    };
    let w = match width {
        Some(w) => w,
        None => term.0,
    };
    let h = match height {
        Some(h) => h,
        None => term.1,
    };
    proof {
        assert((h as int) * (100 + ratio as int) <= 65535 * 355) by (nonlinear_arith)
            requires
                h <= 65535,
                ratio <= 255,
        ;
    }
    if converter == Converter::Sixel {
        (w as u32 * 10, h as u32 * 10)
    } else {
        (w as u32, (h as u32 * (100 + ratio as u32)) / 100)
    }
}

/// The size that `fit_size` returns.
pub open spec fn fit_size_spec(
    converter: Converter,
    width: Option<u16>,
    height: Option<u16>,
    terminal: Option<(u16, u16)>,
    ratio: u8,
) -> (u32, u32) {
    let term = match terminal {
        Some(t) => t,
        None => (40u16, 20u16),
    };
    let w = match width {
        Some(w) => w,
        None => term.0,
    };
    let h = match height {
        Some(h) => h,
        None => term.1,
    };
    if converter == Converter::Sixel {
        ((w * 10) as u32, (h * 10) as u32)
    } else {
        (w as u32, stretched(h as nat, ratio as nat) as u32)
    }
}

/// The image resized, keeping its aspect ratio, to fit the size that
/// `fit_size` gives for the same arguments.
pub fn fit(
    image: &Frame,
    converter: Converter,
    width: Option<u16>,
    height: Option<u16>,
    terminal: Option<(u16, u16)>,
    ratio: u8,
) -> (r: Frame)
    requires
        image.wf(),
        ({
            let (w, h) = fit_size_spec(converter, width, height, terminal, ratio);
            &&& 16 * (image.width as int + 1) * (h as int + 1) <= isize::MAX
            &&& 16 * (w as int + 1) * (h as int + 1) <= isize::MAX
        }),
    ensures
        r.wf(),
        ({
            let (w, h) = fit_size_spec(converter, width, height, terminal, ratio);
            (r.width, r.height, r.data@) == fitted_nearest(image.data@, image.width, image.height, w, h)
        }),
{
    let (w, h) = fit_size(converter, width, height, terminal, ratio);
    resize_to_fit(image, w, h)
}

/// The font-ratio accumulator before row `y`: each row adds `ratio`, and a
/// row that brings it to 100 or more is dropped and takes 100 off.
pub open spec fn ratio_acc(ratio: nat, y: nat) -> nat
    decreases y,
{
    if y == 0 {
        0
    } else {
        let a = ratio_acc(ratio, (y - 1) as nat) + ratio;
        if a >= 100 {
            (a - 100) as nat
        } else {
            a
        }
    }
}

/// Row `y` is dropped to make up for the font ratio.
pub open spec fn row_dropped(ratio: nat, y: nat) -> bool {
    ratio_acc(ratio, y) + ratio >= 100
}

/// `█`, in UTF-8.
pub open spec fn full_block() -> Seq<u8> {
    seq![0xe2u8, 0x96, 0x88]
}

/// The text for one pixel: a 24-bit foreground color, or the nearest
/// 256-color palette entry, then `█`.
pub open spec fn block_cell(palette: bool, c: (u8, u8, u8)) -> Seq<u8> {
    if palette {
        seq![27u8, 91, 51, 56, 59, 53, 59] + decimal(spec_nearest(c) as nat) + seq![109u8] + full_block()
    } else {
        seq![27u8, 91, 51, 56, 59, 50, 59] + rgb_params(c) + seq![109u8] + full_block()
    }
}

/// The cells of the first `n` pixels of row `y`.
pub open spec fn block_cells(f: FrameView, palette: bool, y: int, n: nat) -> Seq<u8>
    decreases n,
{
    if n == 0 {
        seq![]
    } else {
        block_cells(f, palette, y, (n - 1) as nat) + block_cell(palette, f.spec_rgb(n - 1, y))
    }
}

/// The text of the first `k` rows: each row that is not dropped, then `\n`.
pub open spec fn block_rows(f: FrameView, palette: bool, ratio: nat, k: nat) -> Seq<u8>
    decreases k,
{
    if k == 0 {
        seq![]
    } else if row_dropped(ratio, (k - 1) as nat) {
        block_rows(f, palette, ratio, (k - 1) as nat)
    } else {
        block_rows(f, palette, ratio, (k - 1) as nat) + block_cells(f, palette, k - 1, f.width as nat)
            + seq![10u8]
    }
}

/// The whole text: the rows, then `ESC [ 0 ; 0 m` to reset the colors.
pub open spec fn block_text(f: FrameView, palette: bool, ratio: nat) -> Seq<u8> {
    block_rows(f, palette, ratio, f.height as nat) + seq![27u8, 91, 48, 59, 48, 109]
}

proof fn lemma_ratio_acc_bound(ratio: nat, y: nat)
    ensures
        ratio_acc(ratio, y) <= ratio * y,
    decreases y,
{
    if y > 0 {
        lemma_ratio_acc_bound(ratio, (y - 1) as nat);
        assert(ratio * (y - 1) + ratio == ratio * y) by (nonlinear_arith);
    }
}

/// Bytes below 0x80 form valid UTF-8.
proof fn lemma_ascii_valid(s: Seq<u8>)
    requires
        forall|i: int| 0 <= i < s.len() ==> #[trigger] s[i] < 0x80,
    ensures
        valid_utf8(s),
    decreases s.len(),
{
    if s.len() > 0 {
        let b = s[0];
        assert(b < 0x80);
        assert((b & 0x7f) == b) by (bit_vector)
            requires
                b < 0x80,
        ;
        let rest = pop_first_scalar(s);
        assert(rest =~= s.subrange(1, s.len() as int));
        lemma_ascii_valid(rest);
    }
}

proof fn lemma_full_block_valid()
    ensures
        valid_utf8(full_block()),
{
    let s = full_block();
    let b1: u8 = 0xe2;
    let b2: u8 = 0x96;
    let b3: u8 = 0x88;
    assert(((((b1 & 0x0f) as u32) << 12) | (((b2 & 0x3f) as u32) << 6) | ((b3 & 0x3f) as u32)) == 0x2588)
        by (bit_vector)
        requires
            b1 == 0xe2,
            b2 == 0x96,
            b3 == 0x88,
    ;
    assert(s[0] == b1 && s[1] == b2 && s[2] == b3);
    assert(decode_first_codepoint(s) == 0x2588);
    assert(valid_first_scalar(s));
    assert(pop_first_scalar(s) =~= Seq::<u8>::empty());
    reveal_with_fuel(valid_utf8, 2);
}

proof fn lemma_decimal_digits(n: nat)
    ensures
        forall|i: int| 0 <= i < decimal(n).len() ==> 48 <= #[trigger] decimal(n)[i] < 58,
    decreases n,
{
    if n >= 10 {
        lemma_decimal_digits(n / 10);
        let d = decimal(n / 10);
        assert(decimal(n) == d + seq![(48 + n % 10) as u8]);
        assert forall|i: int| 0 <= i < decimal(n).len() implies 48 <= #[trigger] decimal(n)[i] < 58 by {
            if i < d.len() {
                assert(decimal(n)[i] == d[i]);
            }
        }
    }
}

proof fn lemma_cell_valid(palette: bool, c: (u8, u8, u8))
    ensures
        valid_utf8(block_cell(palette, c)),
{
    let prefix = if palette {
        seq![27u8, 91, 51, 56, 59, 53, 59] + decimal(spec_nearest(c) as nat) + seq![109u8]
    } else {
        seq![27u8, 91, 51, 56, 59, 50, 59] + rgb_params(c) + seq![109u8]
    };
    lemma_decimal_digits(spec_nearest(c) as nat);
    lemma_decimal_digits(c.0 as nat);
    lemma_decimal_digits(c.1 as nat);
    lemma_decimal_digits(c.2 as nat);
    assert forall|i: int| 0 <= i < prefix.len() implies #[trigger] prefix[i] < 0x80 by {
    }
    lemma_ascii_valid(prefix);
    lemma_full_block_valid();
    valid_utf8_concat(prefix, full_block());
    assert(block_cell(palette, c) =~= prefix + full_block());
}

proof fn lemma_cells_valid(f: FrameView, palette: bool, y: int, n: nat)
    ensures
        valid_utf8(block_cells(f, palette, y, n)),
    decreases n,
{
    if n == 0 {
        assert(valid_utf8(Seq::<u8>::empty()));
    } else {
        lemma_cells_valid(f, palette, y, (n - 1) as nat);
        lemma_cell_valid(palette, f.spec_rgb(n - 1, y));
        valid_utf8_concat(block_cells(f, palette, y, (n - 1) as nat), block_cell(palette, f.spec_rgb(n - 1, y)));
    }
}

proof fn lemma_rows_valid(f: FrameView, palette: bool, ratio: nat, k: nat)
    ensures
        valid_utf8(block_rows(f, palette, ratio, k)),
    decreases k,
{
    if k > 0 {
        lemma_rows_valid(f, palette, ratio, (k - 1) as nat);
        if !row_dropped(ratio, (k - 1) as nat) {
            let prev = block_rows(f, palette, ratio, (k - 1) as nat);
            let cells = block_cells(f, palette, k - 1, f.width as nat);
            lemma_cells_valid(f, palette, k - 1, f.width as nat);
            lemma_ascii_valid(seq![10u8]);
            valid_utf8_concat(prev, cells);
            valid_utf8_concat(prev + cells, seq![10u8]);
        }
    }
}

proof fn lemma_text_valid(f: FrameView, palette: bool, ratio: nat)
    ensures
        valid_utf8(block_text(f, palette, ratio)),
{
    lemma_rows_valid(f, palette, ratio, f.height as nat);
    let reset = seq![27u8, 91, 48, 59, 48, 109];
    assert forall|i: int| 0 <= i < reset.len() implies #[trigger] reset[i] < 0x80 by {
    }
    lemma_ascii_valid(reset);
    valid_utf8_concat(block_rows(f, palette, ratio, f.height as nat), reset);
}

/// Relies on `String::from_utf8`, which returns the string of the given bytes
/// when they are valid UTF-8.
#[verifier::external_body]
fn utf8_string(bytes: Vec<u8>) -> (r: String)
    requires
        valid_utf8(bytes@),
    ensures
        r@ == decode_utf8(bytes@),
{
    String::from_utf8(bytes).unwrap()
}

fn block_bytes(image: &Frame, ratio: u8, palette: bool) -> (r: Vec<u8>)
    requires
        image.wf(),
    ensures
        r@ == block_text(image@, palette, ratio as nat),
{
    let mut out: Vec<u8> = Vec::new();
    let mut acc: u64 = 0;
    let mut y: u32 = 0;
    while y < image.height
        invariant
            image.wf(),
            y <= image.height,
            acc == ratio_acc(ratio as nat, y as nat),
            out@ == block_rows(image@, palette, ratio as nat, y as nat),
        decreases image.height - y,
    {
        proof {
            lemma_ratio_acc_bound(ratio as nat, y as nat);
            assert((ratio as nat) * (y as nat) <= 255 * u32::MAX) by (nonlinear_arith)
                requires
                    ratio <= 255,
                    y <= u32::MAX,
            ;
        }
        acc = acc + ratio as u64;
        if acc >= 100 {
            acc = acc - 100;
        } else {
            let mut x: u32 = 0;
            let ghost before = out@;
            while x < image.width
                invariant
                    image.wf(),
                    y < image.height,
                    x <= image.width,
                    out@ == before + block_cells(image@, palette, y as int, x as nat),
                decreases image.width - x,
            {
                let c = image.rgb(x, y);
                if palette {
                    let index = nearest_color(c);
                    proof {
                        let s = spec_nearest(c);
                        assert(is_nearest(c, s as int));
                        lemma_nearest_unique(c, s as int, index as int);
                    }
                    push_bytes(&mut out, &[27u8, 91, 51, 56, 59, 53, 59]);
                    push_decimal(&mut out, index);
                } else {
                    push_bytes(&mut out, &[27u8, 91, 51, 56, 59, 50, 59]);
                    push_rgb_params(&mut out, c);
                }
                push_bytes(&mut out, &[109u8, 0xe2, 0x96, 0x88]);
                x += 1;
                proof {
                    assert(out@ =~= before + block_cells(image@, palette, y as int, x as nat));
                }
            }
            push_bytes(&mut out, &[10u8]);
        }
        y += 1;
        proof {
            assert(out@ =~= block_rows(image@, palette, ratio as nat, y as nat));
        }
    }
    push_bytes(&mut out, &[27u8, 91, 48, 59, 48, 109]);
    out
}

/// The image as full blocks in 24-bit foreground colors, one pixel per cell;
/// rows are dropped to make up for the font ratio.
pub fn convert_true(image: &Frame, ratio: u8) -> (r: String)
    requires
        image.wf(),
    ensures
        r@ == decode_utf8(block_text(image@, false, ratio as nat)),
{
    let bytes = block_bytes(image, ratio, false);
    proof {
        lemma_text_valid(image@, false, ratio as nat);
    }
    utf8_string(bytes)
}

/// The image as full blocks in the nearest 256-color palette entries, one
/// pixel per cell; rows are dropped to make up for the font ratio.
pub fn convert_256(image: &Frame, ratio: u8) -> (r: String)
    requires
        image.wf(),
    ensures
        r@ == decode_utf8(block_text(image@, true, ratio as nat)),
{
    let bytes = block_bytes(image, ratio, true);
    proof {
        lemma_text_valid(image@, true, ratio as nat);
    }
    utf8_string(bytes)
}

/// The image converted by `converter`, or `None` for sixel, whose encoder is
/// native code outside this library.
pub fn convert(image: &Frame, converter: Converter, ratio: u8) -> (r: Option<String>)
    requires
        image.wf(),
    ensures
        match converter {
            Converter::TrueColor => r matches Some(s) && s@ == decode_utf8(
                block_text(image@, false, ratio as nat),
            ),
            Converter::Color256 => r matches Some(s) && s@ == decode_utf8(
                block_text(image@, true, ratio as nat),
            ),
            Converter::Sixel => r is None,
        },
{
    match converter {
        Converter::TrueColor => Some(convert_true(image, ratio)),
        Converter::Color256 => Some(convert_256(image, ratio)),
        Converter::Sixel => None,
    }
}

} // verus!
