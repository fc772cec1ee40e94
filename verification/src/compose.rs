//! Fitting a rasterized canvas into the frame that was asked for.
//!
//! A canvas of exactly the target size is the frame. Any other canvas is
//! centred on a transparent frame of the target size; what would fall
//! outside is left out.

use crate::error::RenderError;
use crate::frame::Frame;
use crate::frame::FrameView;
use vstd::arithmetic::div_mod::lemma_fundamental_div_mod;
use vstd::arithmetic::div_mod::lemma_fundamental_div_mod_converse;
use vstd::arithmetic::div_mod::lemma_mod_bound;
use vstd::arithmetic::div_mod::lemma_multiply_divide_lt;
use vstd::prelude::*;

verus! {

/// Whether a pixel buffer of `width` by `height` can be asked for: no
/// extent is zero, a row is at most `i32::MAX` bytes, and the byte count is
/// at most `isize::MAX`.
pub open spec fn buffer_fits(width: u32, height: u32) -> bool {
    &&& width >= 1
    &&& height >= 1
    &&& 4 * width <= i32::MAX
    &&& 4 * width * height <= isize::MAX
}

/// The bytes of a fully transparent buffer of `width` by `height` pixels.
pub open spec fn transparent(width: u32, height: u32) -> Seq<u8> {
    Seq::new((4 * width * height) as nat, |i: int| 0u8)
}

/// Decides whether a pixel buffer of `width` by `height` can be asked for.
pub(crate) fn fits(width: u32, height: u32) -> (r: bool)
    ensures
        r == buffer_fits(width, height),
{
    if width == 0 || height == 0 || width > 0x1fff_ffff {
        return false;
    }
    assert(4 * width * height == 4 * (width * height) && width * height <= 0x1fff_ffff
        * 0xffff_ffff) by (nonlinear_arith)
        requires
            width <= 0x1fff_ffff,
            height <= 0xffff_ffff,
    ;
    let bytes: u64 = 4 * ((width as u64) * (height as u64));
    bytes <= isize::MAX as u64
}

/// Allocates the bytes of a fully transparent pixmap.
///
/// Calls `tiny_skia::Pixmap::new` and takes the buffer out of the pixmap
/// with `Pixmap::take`. That constructor refuses a zero extent, a width
/// whose row would pass `i32::MAX` bytes and a byte count that overflows
/// `usize`; for any other size it returns `4 * width * height` zero bytes.
/// The sizes it refuses are left out here, and so are those over
/// `isize::MAX` bytes, for which the vector that it allocates panics.
#[verifier::external_body]
pub(crate) fn transparent_pixels(width: u32, height: u32) -> (r: Option<Vec<u8>>)
    requires
        buffer_fits(width, height),
    ensures
        r is Some,
        r matches Some(v) ==> v@ == transparent(width, height),
{
    match resvg::tiny_skia::Pixmap::new(width, height) {
        Some(pixmap) => Some(pixmap.take()),
        None => None,
    }
}

/// The margin before a canvas extent centred in a target extent: half the
/// slack, rounded down, and none where the canvas is the larger.
pub open spec fn margin(target: u32, canvas: u32) -> int {
    if target > canvas {
        (target - canvas) / 2
    } else {
        0
    }
}

/// Byte `i` of the frame of `width` by `height` on which `canvas` is
/// centred: the canvas byte that lands there, or zero where none does.
pub open spec fn placed_byte(canvas: FrameView, width: u32, height: u32, i: int) -> u8 {
    let row = i / (4 * width);
    let col = i % (4 * width);
    let top = margin(height, canvas.height);
    let lead = 4 * margin(width, canvas.width);
    if top <= row < top + canvas.height && lead <= col < lead + 4 * canvas.width {
        canvas.pixels[(row - top) * (4 * canvas.width) + (col - lead)]
    } else {
        0
    }
}

/// The transparent frame of `width` by `height` with `canvas` centred on it.
pub open spec fn letterboxed(canvas: FrameView, width: u32, height: u32) -> FrameView {
    FrameView {
        pixels: Seq::new(
            (4 * width * height) as nat,
            |i: int| placed_byte(canvas, width, height, i),
        ),
        width,
        height,
    }
}

/// The frame that composing `canvas` into `width` by `height` gives.
pub open spec fn composed(canvas: FrameView, width: u32, height: u32) -> FrameView {
    if canvas.width == width && canvas.height == height {
        canvas
    } else {
        letterboxed(canvas, width, height)
    }
}

/// A canvas that fits is centred: the margin after it is the margin before
/// it, or one more where the slack is odd.
pub proof fn lemma_margins_are_even(target: u32, canvas: u32)
    requires
        canvas <= target,
    ensures
        0 <= margin(target, canvas),
        margin(target, canvas) <= target - canvas - margin(target, canvas) <= margin(
            target,
            canvas,
        ) + 1,
{
}

/// Composing gives a frame of the size asked for, whatever the canvas.
pub proof fn lemma_composed_has_target_size(canvas: FrameView, width: u32, height: u32)
    requires
        canvas.wf(),
    ensures
        composed(canvas, width, height).width == width,
        composed(canvas, width, height).height == height,
        composed(canvas, width, height).wf(),
{
}

/// The centred frame, pixel by pixel: inside the rectangle that the canvas
/// covers each channel is that of the canvas pixel moved there, and outside
/// it every channel is zero.
pub proof fn lemma_letterboxed_pixel(
    canvas: FrameView,
    width: u32,
    height: u32,
    x: int,
    y: int,
    c: int,
)
    requires
        0 <= x < width,
        0 <= y < height,
        0 <= c < 4,
    ensures
        letterboxed(canvas, width, height).wf(),
        letterboxed(canvas, width, height).channel(x, y, c) == if margin(width, canvas.width) <= x
            < margin(width, canvas.width) + canvas.width && margin(height, canvas.height) <= y
            < margin(height, canvas.height) + canvas.height {
            canvas.channel(x - margin(width, canvas.width), y - margin(height, canvas.height), c)
        } else {
            0
        },
{
    let i = (y * width + x) * 4 + c;
    let left = margin(width, canvas.width);
    let top = margin(height, canvas.height);
    assert(i == y * (4 * width) + (4 * x + c) && 0 <= i < 4 * width * height) by (nonlinear_arith)
        requires
            i == (y * width + x) * 4 + c,
            0 <= x < width,
            0 <= y < height,
            0 <= c < 4,
    ;
    lemma_fundamental_div_mod_converse(i, 4 * width, y, 4 * x + c);
    assert((y - top) * (4 * canvas.width) + (4 * x + c - 4 * left) == ((y - top) * canvas.width + (x
        - left)) * 4 + c) by (nonlinear_arith);
}

/// Byte `i` while the rows before `done` have been filled in and the rest
/// is still transparent.
spec fn partial_byte(canvas: FrameView, width: u32, height: u32, done: int, i: int) -> u8 {
    if i / (4 * width) < done {
        placed_byte(canvas, width, height, i)
    } else {
        0
    }
}

/// Copies `count` bytes of `source`, from index `from` on, over the bytes of
/// `target` from index `at` on.
fn copy_run(target: &mut Vec<u8>, at: usize, source: &Vec<u8>, from: usize, count: usize)
    requires
        at + count <= old(target)@.len(),
        from + count <= source@.len(),
    ensures
        final(target)@.len() == old(target)@.len(),
        forall|i: int|
            0 <= i < old(target)@.len() ==> #[trigger] final(target)@[i] == if at <= i < at
                + count {
                source@[from + (i - at)]
            } else {
                old(target)@[i]
            },
{
    let ghost before = target@;
    let target_len = target.len();
    let source_len = source.len();
    let mut k: usize = 0;
    while k < count
        invariant
            k <= count,
            target@.len() == target_len,
            source@.len() == source_len,
            at + count <= target@.len(),
            from + count <= source@.len(),
            target@.len() == before.len(),
            forall|i: int|
                0 <= i < before.len() ==> #[trigger] target@[i] == if at <= i < at + k {
                    source@[from + (i - at)]
                } else {
                    before[i]
                },
        decreases count - k,
    {
        target.set(at + k, source[from + k]);
        k += 1;
    }
}

/// Fits `canvas` into a frame of exactly `width` by `height`.
///
/// A canvas of that size is returned as it is. Any other is copied onto a
/// transparent frame, its left edge `margin(width, canvas width)` pixels
/// in and its top edge `margin(height, canvas height)` pixels down; every
/// other pixel stays transparent. A transparent frame of a size that
/// cannot be asked for is an allocation failure.
pub fn compose(canvas: Frame, width: u32, height: u32) -> (r: Result<Frame, RenderError>)
    ensures
        r is Ok <==> (canvas@.width == width && canvas@.height == height) || buffer_fits(
            width,
            height,
        ),
        r matches Ok(f) ==> f@ == composed(canvas@, width, height) && f@.wf(),
        r matches Ok(f) ==> f@.width == width && f@.height == height,
        r matches Err(e) ==> e == (RenderError::Allocation { width, height }),
{
    let cw = canvas.width();
    let ch = canvas.height();
    if cw == width && ch == height {
        return Ok(canvas);
    }
    if !fits(width, height) {
        return Err(RenderError::Allocation { width, height });
    }
    let mut target = match transparent_pixels(width, height) {
        Some(v) => v,
        None => {
            return Err(RenderError::Allocation { width, height });
        },
    };
    let ghost cv = canvas@;
    assert(4 * width * height == (4 * width) * height && 4 * width <= (4 * width) * height)
        by (nonlinear_arith)
        requires
            height >= 1,
    ;
    let stride: usize = 4 * (width as usize);
    let source = canvas.pixels();
    let source_len = source.len();
    if cw > 0 && ch > 0 {
        assert(4 * cw * ch == (4 * cw) * ch && 4 * cw <= (4 * cw) * ch) by (nonlinear_arith)
            requires
                ch >= 1,
        ;
        let cstride: usize = 4 * (cw as usize);
        let left: usize = if width > cw {
            ((width - cw) / 2) as usize
        } else {
            0
        };
        let top: usize = if height > ch {
            ((height - ch) / 2) as usize
        } else {
            0
        };
        let span: usize = if cw <= width {
            cw as usize
        } else {
            width as usize
        };
        let rows: usize = if ch <= height {
            ch as usize
        } else {
            height as usize
        };
        let lead: usize = 4 * left;
        let run: usize = 4 * span;
        let mut y: usize = 0;
        while y < rows
            invariant
                y <= rows,
                cv == canvas@,
                cv.wf(),
                source@ == cv.pixels,
                cw == cv.width,
                ch == cv.height,
                cw > 0,
                ch > 0,
                buffer_fits(width, height),
                stride == 4 * width,
                cstride == 4 * cw,
                left == margin(width, cw),
                top == margin(height, ch),
                lead == 4 * left,
                run == 4 * span,
                span == if cw <= width { cw } else { width },
                rows == if ch <= height { ch } else { height },
                target@.len() == stride * height,
                source@.len() == cstride * ch,
                source@.len() == source_len,
                forall|i: int|
                    0 <= i < target@.len() ==> #[trigger] target@[i] == partial_byte(
                        cv,
                        width,
                        height,
                        top + y,
                        i,
                    ),
            decreases rows - y,
        {
            assert((top + y) * stride + stride <= stride * height && (top + y) * stride >= 0)
                by (nonlinear_arith)
                requires
                    top + y < height,
                    stride >= 0,
                    top + y >= 0,
            ;
            assert(y * cstride + cstride <= cstride * ch && y * cstride >= 0) by (nonlinear_arith)
                requires
                    0 <= y < ch,
                    cstride >= 0,
            ;
            let at: usize = (top + y) * stride + lead;
            let from: usize = y * cstride;
            copy_run(&mut target, at, source, from, run);
            assert forall|i: int| 0 <= i < target@.len() implies #[trigger] target@[i]
                == partial_byte(cv, width, height, top + y + 1, i) by {
                lemma_fundamental_div_mod(i, stride as int);
                lemma_mod_bound(i, stride as int);
                let r = i / (stride as int);
                let c = i % (stride as int);
                if at <= i < at + run {
                    lemma_fundamental_div_mod_converse(
                        i,
                        stride as int,
                        (top + y) as int,
                        lead + (i - at),
                    );
                    assert((r - top) * (4 * cw) + (c - lead) == from + (i - at))
                        by (nonlinear_arith)
                        requires
                            r == top + y,
                            c == lead + (i - at),
                            from == y * cstride,
                            cstride == 4 * cw,
                    ;
                } else if r == top + y {
                    assert(i == (top + y) * stride + c) by (nonlinear_arith)
                        requires
                            i == stride * r + c,
                            r == top + y,
                    ;
                }
            }
            y += 1;
        }
        assert forall|i: int| 0 <= i < target@.len() implies #[trigger] target@[i] == placed_byte(
            cv,
            width,
            height,
            i,
        ) by {
            lemma_multiply_divide_lt(i, stride as int, height as int);
        }
    }
    assert(target@ =~= letterboxed(cv, width, height).pixels);
    match Frame::from_pixels(target, width, height) {
        Some(frame) => Ok(frame),
        None => Err(RenderError::Allocation { width, height }),
    }
}

} // verus!
