//! From the bytes of an image file to a scene and the size it declares, and
//! from a scene to the pixels of a canvas.

use crate::compose::buffer_fits;
use crate::error::RenderError;
use crate::transform::IntrinsicSize;
use crate::units::binary32_measurable;
use crate::units::binary32_raw;
use crate::units::Length;
use resvg::tiny_skia::PixmapMut;
use resvg::tiny_skia::Transform;
use resvg::usvg::Error;
use resvg::usvg::Options;
use resvg::usvg::Tree;
use vstd::prelude::*;
use vstd::string::StringExecFns;

verus! {

/// `usvg::Tree`, a parsed image. It is carried from the parser to the
/// rasterizer as it is; nothing inside it is read here.
#[verifier::external_type_specification]
#[verifier::external_body]
pub struct ExTree(Tree);

/// `usvg::Error`, the parser's reason for refusing an image.
#[verifier::external_type_specification]
#[verifier::external_body]
pub struct ExError(Error);

/// `tiny_skia::Transform`, the placement under which a scene is drawn. Its
/// numbers are made by the caller; here it is carried to the renderer as it
/// is.
#[verifier::external_type_specification]
#[verifier::external_body]
pub struct ExTransform(Transform);

/// Parses an image with `usvg::Tree::from_data`, under options that are the
/// defaults but for the stylesheet, and reads the size of the tree with
/// `Tree::size`, each extent as a single-precision bit pattern. Nothing is
/// claimed of the outcome: the parser follows links to other files, so
/// that the same bytes need not give the same tree twice.
#[verifier::external_body]
fn parse_tree(data: &[u8], style: &str) -> (r: Result<(Tree, u32, u32), Error>) {
    let options = Options { style_sheet: Some(style.to_string()), ..Options::default() };
    let tree = Tree::from_data(data, &options)?;
    let size = tree.size();
    Ok((tree, size.width().to_bits(), size.height().to_bits()))
}

/// The parser's account of an error, as its `Display` writes it. Nothing is
/// claimed of the text.
#[verifier::external_body]
fn diagnostic(error: &Error) -> (r: String) {
    error.to_string()
}

/// Draws `scene` on `canvas` with `resvg::render`, placed by `transform`.
/// The canvas is lent to the renderer as a pixmap of `width` by `height`
/// made by `PixmapMut::from_bytes`. That constructor refuses a zero extent,
/// a row over `i32::MAX` bytes, a byte count that overflows and a buffer
/// shorter than the size calls for; these are left out here, so that the
/// scene is always drawn. The renderer writes into the buffer that it is
/// lent, which comes back as long as it went in. Nothing is claimed of the
/// pixels.
#[verifier::external_body]
pub(crate) fn draw(scene: &Tree, transform: Transform, canvas: Vec<u8>, width: u32, height: u32) -> (r:
    Vec<u8>)
    requires
        buffer_fits(width, height),
        canvas@.len() == 4 * width * height,
    ensures
        r@.len() == canvas@.len(),
{
    let mut canvas = canvas;
    if let Some(mut pixmap) = PixmapMut::from_bytes(&mut canvas, width, height) {
        resvg::render(scene, transform, &mut pixmap);
    }
    canvas
}

/// The size that a pair of bit patterns stands for, where both are lengths.
pub open spec fn measured(bits: (u32, u32)) -> Option<IntrinsicSize> {
    if binary32_measurable(bits.0) && binary32_measurable(bits.1) {
        Some(
            IntrinsicSize {
                width: Length { raw: binary32_raw(bits.0) as u64 },
                height: Length { raw: binary32_raw(bits.1) as u64 },
            },
        )
    } else {
        None
    }
}

/// Reads a declared size from its two bit patterns.
pub fn measure(width: u32, height: u32) -> (r: Option<IntrinsicSize>)
    ensures
        r == measured((width, height)),
{
    match (Length::from_binary32(width), Length::from_binary32(height)) {
        (Some(width), Some(height)) => Some(IntrinsicSize { width, height }),
        _ => None,
    }
}

/// Whether `reply` is what becomes of the parser's outcome `parsed` for the
/// file at `path`: a scene with its two extents as bit patterns, or the
/// parser's account of why there is none.
///
/// A scene whose extents are both lengths is handed on with its size. A
/// scene with an extent that is no length is an unsupported size, and the
/// parser's refusal is a parse error with the parser's account, each with
/// the path.
pub open spec fn accepts(
    path: Seq<char>,
    parsed: Result<(Tree, u32, u32), String>,
    reply: Result<(Tree, IntrinsicSize), RenderError>,
) -> bool {
    match parsed {
        Ok((scene, width, height)) => match measured((width, height)) {
            Some(size) => reply matches Ok(pair) && pair == (scene, size),
            None => reply matches Err(RenderError::UnsupportedSize { path: named }) && named@
                == path,
        },
        Err(account) => reply matches Err(RenderError::Parse { path: named, diagnostic })
            && named@ == path && diagnostic@ == account@,
    }
}

/// Turns the parser's outcome for the file at `path` into a scene with its
/// size, or into the error that the outcome stands for.
pub fn accept(path: &str, parsed: Result<(Tree, u32, u32), String>) -> (r: Result<
    (Tree, IntrinsicSize),
    RenderError,
>)
    ensures
        accepts(path@, parsed, r),
{
    match parsed {
        Ok((scene, width, height)) => match measure(width, height) {
            Some(size) => Ok((scene, size)),
            None => Err(RenderError::UnsupportedSize { path: String::from_str(path) }),
        },
        Err(account) => Err(
            RenderError::Parse { path: String::from_str(path), diagnostic: account },
        ),
    }
}

/// Parses the bytes of the file at `path` into a scene, with `style` as the
/// stylesheet that is put before the image's own.
///
/// Whatever the parser makes of the bytes, the reply is what [`accepts`]
/// says of it: the scene with the size that it declares, an unsupported
/// size, or a parse error with the parser's account.
pub fn parse_scene(path: &str, data: &[u8], style: &str) -> (r: Result<
    (Tree, IntrinsicSize),
    RenderError,
>)
    ensures
        exists|parsed: Result<(Tree, u32, u32), String>| accepts(path@, parsed, r),
{
    let parsed = match parse_tree(data, style) {
        Ok(found) => Ok(found),
        Err(error) => Err(diagnostic(&error)),
    };
    accept(path, parsed)
}

} // verus!
