//! The sixel converter. Its encoding is done by the native libsixel encoder,
//! which lies outside this library; here it only maps cell coordinates.

use crate::converters::Converter;
use crate::frame::{Frame, FrameView};
use vstd::prelude::*;

verus! {

/// Sixel graphics: each terminal cell covers a 10 x 10 block of pixels.
#[derive(Clone, Copy, Debug)]
pub struct Sixel;

impl Converter for Sixel {
    open spec fn spec_actual_pos(&self, x: u32, y: u32) -> (u32, u32) {
        ((x * 10) as u32, (y * 10) as u32)
    }

    open spec fn spec_render(&self, image: FrameView) -> Option<Seq<u8>> {
        None
    }

    fn actual_pos(&self, x: u32, y: u32) -> (r: (u32, u32)) {
        (x * 10, y * 10)
    }

    fn to_vec(&self, image: &Frame) -> (r: Option<Vec<u8>>) {
        None
    }
}

} // verus!
