//! The ways in which a render can fail.

use crate::text::append_decimal;
use crate::text::decimal;
use vstd::prelude::*;
use vstd::string::StringExecFns;

verus! {

/// Why a request produced no frame. None of these is retried, and none of
/// them changes what the store holds for the instance.
#[derive(Debug, PartialEq, Eq)]
pub enum RenderError {
    /// The file at `path` could not be read; `cause` is the reason given.
    Io { path: String, cause: String },
    /// The bytes read from `path` are not an image; `diagnostic` is the
    /// parser's account.
    Parse { path: String, diagnostic: String },
    /// The image read from `path` declares a size that is no length: it is
    /// negative or not finite, 2^32 pixels or more, or finer than 2^-32
    /// pixel.
    UnsupportedSize { path: String },
    /// A pixel buffer of `width` by `height` could not be had.
    Allocation { width: u32, height: u32 },
    /// Clip and scale left a canvas of `width` by `height`, one of them zero.
    DegenerateSize { width: u32, height: u32 },
}

impl Clone for RenderError {
    /// A copy of the error, equal to it.
    fn clone(&self) -> (r: RenderError)
        ensures
            r == *self,
    {
        match self {
            RenderError::Io { path, cause } => RenderError::Io {
                path: path.clone(),
                cause: cause.clone(),
            },
            RenderError::Parse { path, diagnostic } => RenderError::Parse {
                path: path.clone(),
                diagnostic: diagnostic.clone(),
            },
            RenderError::UnsupportedSize { path } => RenderError::UnsupportedSize {
                path: path.clone(),
            },
            RenderError::Allocation { width, height } => RenderError::Allocation {
                width: *width,
                height: *height,
            },
            RenderError::DegenerateSize { width, height } => RenderError::DegenerateSize {
                width: *width,
                height: *height,
            },
        }
    }
}

impl RenderError {
    /// The text of the error's message.
    pub open spec fn spec_message(self) -> Seq<char> {
        match self {
            RenderError::Io { path, cause } => "Failed to read SVG file '"@ + path@ + "': "@
                + cause@,
            RenderError::Parse { path, diagnostic } => "Failed to parse SVG file '"@ + path@
                + "': "@ + diagnostic@,
            RenderError::UnsupportedSize { path } => "Unsupported size of SVG file '"@ + path@
                + "'"@,
            RenderError::Allocation { width, height } => "Failed to create pixmap with size "@
                + decimal(width as nat) + "x"@ + decimal(height as nat),
            RenderError::DegenerateSize { width, height } => "Nothing left to render at size "@
                + decimal(width as nat) + "x"@ + decimal(height as nat),
        }
    }

    /// The error in words, for whoever has to show it: the path and the
    /// cause of a failed read or parse, the path of an image whose size is
    /// no length, the size of a buffer that could not be had, the size of a
    /// canvas without area.
    pub fn message(&self) -> (r: String)
        ensures
            r@ == self.spec_message(),
    {
        match self {
            RenderError::Io { path, cause } => {
                let mut out = String::from_str("Failed to read SVG file '");
                out.append(path.as_str());
                out.append("': ");
                out.append(cause.as_str());
                out
            },
            RenderError::Parse { path, diagnostic } => {
                let mut out = String::from_str("Failed to parse SVG file '");
                out.append(path.as_str());
                out.append("': ");
                out.append(diagnostic.as_str());
                out
            },
            RenderError::UnsupportedSize { path } => {
                let mut out = String::from_str("Unsupported size of SVG file '");
                out.append(path.as_str());
                out.append("'");
                out
            },
            RenderError::Allocation { width, height } => {
                let mut out = String::from_str("Failed to create pixmap with size ");
                append_decimal(&mut out, *width);
                out.append("x");
                append_decimal(&mut out, *height);
                out
            },
            RenderError::DegenerateSize { width, height } => {
                let mut out = String::from_str("Nothing left to render at size ");
                append_decimal(&mut out, *width);
                out.append("x");
                append_decimal(&mut out, *height);
                out
            },
        }
    }
}

} // verus!
