//! Converters from pixel buffers to terminal text.
//!
//! The variants form a closed set; `DynamicConverter` selects one at run
//! time.

pub mod color256;
pub mod halfblock;
pub mod sixel;
pub mod truecolor;

pub use self::color256::Color256;
pub use self::halfblock::HalfBlock;
pub use self::sixel::Sixel;
pub use self::truecolor::TrueColor;

use crate::frame::{Frame, FrameView};
use vstd::prelude::*;

verus! {

/// The decimal digits of `n` in ASCII, without leading zeros.
pub open spec fn decimal(n: nat) -> Seq<u8>
    decreases n,
{
    if n < 10 {
        seq![(48 + n) as u8]
    } else {
        decimal(n / 10) + seq![(48 + n % 10) as u8]
    }
}

/// Append the bytes of `s` to `out`.
pub fn push_bytes(out: &mut Vec<u8>, s: &[u8])
    ensures
        final(out)@ == old(out)@ + s@,
{
    let mut i: usize = 0;
    while i < s.len()
        invariant
            0 <= i <= s@.len(),
            out@ == old(out)@ + s@.subrange(0, i as int),
        decreases s@.len() - i,
    {
        out.push(s[i]);
        i += 1;
        proof {
            assert(s@.subrange(0, i as int) =~= s@.subrange(0, i - 1) + seq![s@[i - 1]]);
        }
    }
    proof {
        assert(s@.subrange(0, s@.len() as int) =~= s@);
    }
}

/// Append the decimal digits of `n` to `out`.
pub fn push_decimal(out: &mut Vec<u8>, n: u8)
    ensures
        final(out)@ == old(out)@ + decimal(n as nat),
{
    proof {
        reveal_with_fuel(decimal, 3);
    }
    if n >= 100 {
        push_bytes(out, &[48 + n / 100, 48 + n / 10 % 10, 48 + n % 10]);
        proof {
            assert(decimal(n as nat) =~= seq![(48 + n / 100) as u8, (48 + n / 10 % 10) as u8, (48 + n % 10) as u8]);
        }
    } else if n >= 10 {
        push_bytes(out, &[48 + n / 10, 48 + n % 10]);
        proof {
            assert(decimal(n as nat) =~= seq![(48 + n / 10) as u8, (48 + n % 10) as u8]);
        }
    } else {
        push_bytes(out, &[48 + n]);
    }
}

/// `ESC [ 38 ; 2 ;`: start of a 24-bit foreground color.
pub open spec fn sgr_fg24() -> Seq<u8> {
    seq![27u8, 91, 51, 56, 59, 50, 59]
}

/// `ESC [ 48 ; 2 ;`: start of a 24-bit background color.
pub open spec fn sgr_bg24() -> Seq<u8> {
    seq![27u8, 91, 52, 56, 59, 50, 59]
}

/// `ESC [ 0 m`: reset all attributes.
pub open spec fn sgr_reset() -> Seq<u8> {
    seq![27u8, 91, 48, 109]
}

/// `r;g;b` in decimal.
pub open spec fn rgb_params(c: (u8, u8, u8)) -> Seq<u8> {
    decimal(c.0 as nat) + seq![59u8] + decimal(c.1 as nat) + seq![59u8] + decimal(c.2 as nat)
}

/// Append `r;g;b` in decimal to `out`.
pub fn push_rgb_params(out: &mut Vec<u8>, c: (u8, u8, u8))
    ensures
        final(out)@ == old(out)@ + rgb_params(c),
{
    push_decimal(out, c.0);
    push_bytes(out, &[59u8]);
    push_decimal(out, c.1);
    push_bytes(out, &[59u8]);
    push_decimal(out, c.2);
    proof {
        assert(final(out)@ =~= old(out)@ + rgb_params(c));
    }
}

/// A strategy that turns an image into text for the terminal.
pub trait Converter {
    /// The pixel of the converted image that terminal cell `(x, y)` shows.
    spec fn spec_actual_pos(&self, x: u32, y: u32) -> (u32, u32);

    /// The text for `image`, or `None` where the encoding is done by a
    /// native encoder outside this library.
    spec fn spec_render(&self, image: FrameView) -> Option<Seq<u8>>;

    /// Where is x/y in the terminal on the image?
    /// For example, TrueColor/Color256 would just return directly,
    /// because one character is one pixel.
    fn actual_pos(&self, x: u32, y: u32) -> (r: (u32, u32))
        requires
            x <= u16::MAX,
            y <= u16::MAX,
        ensures
            r == self.spec_actual_pos(x, y),
    ;

    /// Write an image to bytes that can be displayed in the terminal.
    fn to_vec(&self, image: &Frame) -> (r: Option<Vec<u8>>)
        requires
            image.wf(),
        ensures
            match r {
                Some(v) => self.spec_render(image@) == Some(v@),
                None => self.spec_render(image@) is None,
            },
    ;
}

/// All built-in converters, selectable at run time.
#[derive(Clone, Copy, Debug, PartialEq, Eq, Structural)]
pub enum DynamicConverter {
    Sixel,
    Color256,
    HalfBlock,
    TrueColor,
}

impl Converter for DynamicConverter {
    open spec fn spec_actual_pos(&self, x: u32, y: u32) -> (u32, u32) {
        match *self {
            DynamicConverter::Sixel => Sixel.spec_actual_pos(x, y),
            DynamicConverter::Color256 => Color256.spec_actual_pos(x, y),
            DynamicConverter::HalfBlock => HalfBlock.spec_actual_pos(x, y),
            DynamicConverter::TrueColor => TrueColor.spec_actual_pos(x, y),
        }
    }

    open spec fn spec_render(&self, image: FrameView) -> Option<Seq<u8>> {
        match *self {
            DynamicConverter::Sixel => Sixel.spec_render(image),
            DynamicConverter::Color256 => Color256.spec_render(image),
            DynamicConverter::HalfBlock => HalfBlock.spec_render(image),
            DynamicConverter::TrueColor => TrueColor.spec_render(image),
        }
    }

    fn actual_pos(&self, x: u32, y: u32) -> (r: (u32, u32)) {
        match *self {
            DynamicConverter::Sixel => Sixel.actual_pos(x, y),
            DynamicConverter::Color256 => Color256.actual_pos(x, y),
            DynamicConverter::HalfBlock => HalfBlock.actual_pos(x, y),
            DynamicConverter::TrueColor => TrueColor.actual_pos(x, y),
        }
    }

    fn to_vec(&self, image: &Frame) -> (r: Option<Vec<u8>>) {
        match *self {
            DynamicConverter::Sixel => Sixel.to_vec(image),
            DynamicConverter::Color256 => Color256.to_vec(image),
            DynamicConverter::HalfBlock => HalfBlock.to_vec(image),
            DynamicConverter::TrueColor => TrueColor.to_vec(image),
        }
    }
}

} // verus!
