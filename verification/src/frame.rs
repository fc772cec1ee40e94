//! Pixel buffers.

use vstd::prelude::*;

verus! {

/// A rectangle of RGBA pixels, four bytes to the pixel, rows from the top,
/// each row from the left. The buffer always holds exactly
/// `4 * width * height` bytes.
#[derive(Debug)]
pub struct Frame {
    pixels: Vec<u8>,
    width: u32,
    height: u32,
}

/// A frame as a mathematical value.
pub ghost struct FrameView {
    pub pixels: Seq<u8>,
    pub width: u32,
    pub height: u32,
}

impl FrameView {
    /// Whether the buffer has the length that the dimensions call for.
    pub open spec fn wf(self) -> bool {
        self.pixels.len() == 4 * self.width * self.height
    }

    /// Channel `c` of the pixel in column `x` of row `y`.
    pub open spec fn channel(self, x: int, y: int, c: int) -> u8 {
        self.pixels[(y * self.width + x) * 4 + c]
    }
}

impl View for Frame {
    type V = FrameView;

    closed spec fn view(&self) -> FrameView {
        FrameView { pixels: self.pixels@, width: self.width, height: self.height }
    }
}

impl Frame {
    #[verifier::type_invariant]
    spec fn sized(self) -> bool {
        self.pixels@.len() == 4 * self.width * self.height
    }

    /// Takes `pixels` as a frame of `width` by `height`, if it has the length
    /// for it.
    pub fn from_pixels(pixels: Vec<u8>, width: u32, height: u32) -> (r: Option<Frame>)
        ensures
            r is Some <==> pixels@.len() == 4 * width * height,
            r matches Some(f) ==> f@ == (FrameView { pixels: pixels@, width, height }) && f@.wf(),
    {
        assert(width * height <= 0xffff_ffff * 0xffff_ffff) by (nonlinear_arith)
            requires
                width <= 0xffff_ffff,
                height <= 0xffff_ffff,
        ;
        let area: u64 = (width as u64) * (height as u64);
        assert(4 * width * height == 4 * (width * height)) by (nonlinear_arith);
        let wanted: u128 = 4 * (area as u128);
        if pixels.len() as u128 == wanted {
            Some(Frame { pixels, width, height })
        } else {
            None
        }
    }

    /// The bytes of the frame.
    pub fn pixels(&self) -> (r: &Vec<u8>)
        ensures
            r@ == self@.pixels,
            self@.wf(),
    {
        proof {
            use_type_invariant(self);
        }
        &self.pixels
    }

    /// Gives up the frame for its bytes.
    pub fn into_pixels(self) -> (r: Vec<u8>)
        ensures
            r@ == self@.pixels,
            self@.wf(),
    {
        proof {
            use_type_invariant(&self);
        }
        self.pixels
    }

    /// Width in pixels.
    pub fn width(&self) -> (r: u32)
        ensures
            r == self@.width,
            self@.wf(),
    {
        proof {
            use_type_invariant(self);
        }
        self.width
    }

    /// Height in pixels.
    pub fn height(&self) -> (r: u32)
        ensures
            r == self@.height,
            self@.wf(),
    {
        proof {
            use_type_invariant(self);
        }
        self.height
    }
}

} // verus!
