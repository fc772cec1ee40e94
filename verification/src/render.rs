//! One render, from snapshot to frame.
//!
//! Reading the file is the caller's, and so is the arithmetic that turns
//! the exact scale of a plan into the renderer's transform: what the read
//! gave comes in as a value, the arithmetic as a function. All other steps
//! are taken here, and the first failure ends the render.

use crate::compose::buffer_fits;
use crate::compose::compose;
use crate::compose::composed;
use crate::compose::fits;
use crate::compose::transparent_pixels;
use crate::error::RenderError;
use crate::frame::Frame;
use crate::frame::FrameView;
use crate::scene::draw;
use crate::scene::parse_scene;
use crate::snapshot::ConfigSnapshot;
use crate::snapshot::SnapshotView;
use crate::style::style_override;
use crate::transform::drawable;
use crate::transform::lemma_stretch_fills_target;
use crate::transform::plan;
use crate::transform::planned;
use crate::transform::IntrinsicSize;
use crate::transform::RenderPlan;
use resvg::tiny_skia::Transform;
use resvg::usvg::Tree;
use vstd::prelude::*;

verus! {

/// With independent scales the canvas that the plan asks for is the frame:
/// composing adds no padding and moves no pixel.
pub proof fn lemma_stretched_canvas_is_the_frame(
    snapshot: SnapshotView,
    size: IntrinsicSize,
    canvas: FrameView,
)
    requires
        !snapshot.maintain_aspect_ratio,
        drawable(snapshot, size),
        canvas.width == planned(snapshot, size).canvas_width,
        canvas.height == planned(snapshot, size).canvas_height,
    ensures
        composed(canvas, snapshot.width, snapshot.height) == canvas,
{
    lemma_stretch_fills_target(snapshot, size);
}

/// Whether `reply` is what drawing a scene of size `size` for `snapshot`
/// comes to.
///
/// A scene that clip and target leave no area of is a degenerate size. A
/// canvas of a size that cannot be asked for is an allocation failure, and
/// so is a target of such a size where the canvas is not the target. In
/// every other case there is a drawn canvas of the planned size, and the
/// reply is that canvas composed into the target.
pub open spec fn draws(
    snapshot: SnapshotView,
    size: IntrinsicSize,
    reply: Result<Frame, RenderError>,
) -> bool {
    let layout = planned(snapshot, size);
    if !drawable(snapshot, size) {
        reply matches Err(e) && e == (RenderError::DegenerateSize {
            width: layout.canvas_width,
            height: layout.canvas_height,
        })
    } else if !buffer_fits(layout.canvas_width, layout.canvas_height) {
        reply matches Err(e) && e == (RenderError::Allocation {
            width: layout.canvas_width,
            height: layout.canvas_height,
        })
    } else if (layout.canvas_width != snapshot.width || layout.canvas_height != snapshot.height)
        && !buffer_fits(snapshot.width, snapshot.height) {
        reply matches Err(e) && e == (RenderError::Allocation {
            width: snapshot.width,
            height: snapshot.height,
        })
    } else {
        exists|drawn: Seq<u8>|
            {
                &&& drawn.len() == 4 * layout.canvas_width * layout.canvas_height
                &&& reply matches Ok(frame) && frame@ == composed(
                    FrameView {
                        pixels: drawn,
                        width: layout.canvas_width,
                        height: layout.canvas_height,
                    },
                    snapshot.width,
                    snapshot.height,
                )
            }
    }
}

/// Draws a parsed scene into a frame of the snapshot's width and height.
///
/// The canvas is planned from `size`, the size that the scene declares,
/// and allocated transparent; the scene is drawn on it under the transform
/// that `place` makes of the plan; and the canvas is composed into the
/// frame. The first step that fails ends the render. `place` is called
/// once where the canvas could be allocated, and not at all where not.
pub fn render_scene<P>(snapshot: &ConfigSnapshot, scene: Tree, size: IntrinsicSize, place: P) -> (r:
    Result<Frame, RenderError>) where P: FnOnce(&RenderPlan) -> Transform
    requires
        drawable(snapshot@, size) ==> place.requires((&planned(snapshot@, size),)),
    ensures
        draws(snapshot@, size, r),
        r matches Ok(frame) ==> frame@.width == snapshot.width && frame@.height == snapshot.height
            && frame@.wf(),
{
    let layout = match plan(snapshot, size) {
        Ok(layout) => layout,
        Err(error) => {
            return Err(error);
        },
    };
    let blank = if fits(layout.canvas_width, layout.canvas_height) {
        transparent_pixels(layout.canvas_width, layout.canvas_height)
    } else {
        None
    };
    let blank = match blank {
        Some(blank) => blank,
        None => {
            return Err(
                RenderError::Allocation {
                    width: layout.canvas_width,
                    height: layout.canvas_height,
                },
            );
        },
    };
    let transform = place(&layout);
    let drawn = draw(&scene, transform, blank, layout.canvas_width, layout.canvas_height);
    match Frame::from_pixels(drawn, layout.canvas_width, layout.canvas_height) {
        Some(canvas) => compose(canvas, snapshot.width, snapshot.height),
        None => Err(
            RenderError::Allocation { width: layout.canvas_width, height: layout.canvas_height },
        ),
    }
}

/// Whether `reply` is what a render for `snapshot` comes to, given what
/// reading the file gave: its bytes, or the reason why there are none.
///
/// A failed read is an I/O error with the snapshot's path and the reason,
/// and nothing else is. Bytes that were read are handed to the parser, and
/// what the parser makes of them is not fixed by the bytes: the reply is a
/// parse error or an unsupported size, each with the snapshot's path, or
/// for some size what [`draws`] says of a scene of that size.
pub open spec fn renders(
    snapshot: SnapshotView,
    read: Result<Vec<u8>, String>,
    reply: Result<Frame, RenderError>,
) -> bool {
    match read {
        Err(reason) => reply matches Err(RenderError::Io { path, cause }) && path@ == snapshot.path
            && cause@ == reason@,
        Ok(_) => {
            ||| reply matches Err(RenderError::Parse { path, .. }) && path@ == snapshot.path
            ||| reply matches Err(RenderError::UnsupportedSize { path }) && path@ == snapshot.path
            ||| exists|size: IntrinsicSize| #[trigger] draws(snapshot, size, reply)
        },
    }
}

/// Renders the image of `snapshot` into a frame of the snapshot's width and
/// height.
///
/// `read` is what reading the snapshot's file gave. The bytes are parsed
/// under the stylesheet that sets the snapshot's color, and the scene is
/// drawn as [`render_scene`] says, under the transform that `place` makes
/// of the plan. The first step that fails ends the render; `place` is not
/// called where the render does not get as far as drawing.
pub fn render<P>(snapshot: &ConfigSnapshot, read: Result<Vec<u8>, String>, place: P) -> (r: Result<
    Frame,
    RenderError,
>) where P: FnOnce(&RenderPlan) -> Transform
    requires
        forall|size: IntrinsicSize|
            drawable(snapshot@, size) ==> place.requires((&planned(snapshot@, size),)),
    ensures
        renders(snapshot@, read, r),
        r matches Err(RenderError::Io { .. }) <==> read is Err,
        r matches Ok(frame) ==> frame@.width == snapshot.width && frame@.height == snapshot.height
            && frame@.wf(),
{
    let data = match read {
        Ok(data) => data,
        Err(cause) => {
            return Err(RenderError::Io { path: snapshot.path.clone(), cause });
        },
    };
    let style = style_override(snapshot.color);
    match parse_scene(snapshot.path.as_str(), data.as_slice(), style.as_str()) {
        Ok((scene, size)) => render_scene(snapshot, scene, size, place),
        Err(error) => Err(error),
    }
}

} // verus!
