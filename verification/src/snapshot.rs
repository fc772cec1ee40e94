//! The parameters of one render request.

use vstd::prelude::*;
use vstd::std_specs::cmp::PartialEqSpecImpl;

verus! {

/// Everything that decides what a rendered frame looks like. Two requests
/// with equal snapshots ask for the same pixels, so the snapshot is the key
/// under which a frame is kept.
#[derive(Debug)]
pub struct ConfigSnapshot {
    /// Where the image is read from.
    pub path: String,
    /// The color that elements drawn in the current color take: red, green, blue.
    pub color: (u8, u8, u8),
    /// Width of the frame asked for, in pixels.
    pub width: u32,
    /// Height of the frame asked for, in pixels.
    pub height: u32,
    /// Whether both axes are scaled by the same factor.
    pub maintain_aspect_ratio: bool,
    /// Pixels of the source cut away at its top edge.
    pub clip_top: u32,
    /// Pixels of the source cut away at its bottom edge.
    pub clip_bottom: u32,
    /// Pixels of the source cut away at its left edge.
    pub clip_left: u32,
    /// Pixels of the source cut away at its right edge.
    pub clip_right: u32,
}

/// A snapshot as a mathematical value.
pub ghost struct SnapshotView {
    pub path: Seq<char>,
    pub color: (u8, u8, u8),
    pub width: u32,
    pub height: u32,
    pub maintain_aspect_ratio: bool,
    pub clip_top: u32,
    pub clip_bottom: u32,
    pub clip_left: u32,
    pub clip_right: u32,
}

impl View for ConfigSnapshot {
    type V = SnapshotView;

    open spec fn view(&self) -> SnapshotView {
        SnapshotView {
            path: self.path@,
            color: self.color,
            width: self.width,
            height: self.height,
            maintain_aspect_ratio: self.maintain_aspect_ratio,
            clip_top: self.clip_top,
            clip_bottom: self.clip_bottom,
            clip_left: self.clip_left,
            clip_right: self.clip_right,
        }
    }
}

impl ConfigSnapshot {
    /// Gathers the parameters of a request into a snapshot.
    pub fn new(
        path: String,
        color: (u8, u8, u8),
        width: u32,
        height: u32,
        maintain_aspect_ratio: bool,
        clip_top: u32,
        clip_bottom: u32,
        clip_left: u32,
        clip_right: u32,
    ) -> (r: ConfigSnapshot)
        ensures
            r@ == (SnapshotView {
                path: path@,
                color,
                width,
                height,
                maintain_aspect_ratio,
                clip_top,
                clip_bottom,
                clip_left,
                clip_right,
            }),
    {
        ConfigSnapshot {
            path,
            color,
            width,
            height,
            maintain_aspect_ratio,
            clip_top,
            clip_bottom,
            clip_left,
            clip_right,
        }
    }
}

impl Clone for ConfigSnapshot {
    /// A copy of the snapshot, equal to it in every field.
    fn clone(&self) -> (r: ConfigSnapshot)
        ensures
            r@ == self@,
    {
        ConfigSnapshot {
            path: self.path.clone(),
            color: self.color,
            width: self.width,
            height: self.height,
            maintain_aspect_ratio: self.maintain_aspect_ratio,
            clip_top: self.clip_top,
            clip_bottom: self.clip_bottom,
            clip_left: self.clip_left,
            clip_right: self.clip_right,
        }
    }
}

impl PartialEq for ConfigSnapshot {
    fn eq(&self, other: &ConfigSnapshot) -> (r: bool) {
        self.path == other.path && self.color.0 == other.color.0 && self.color.1 == other.color.1
            && self.color.2 == other.color.2 && self.width == other.width && self.height
            == other.height && self.maintain_aspect_ratio == other.maintain_aspect_ratio
            && self.clip_top == other.clip_top && self.clip_bottom == other.clip_bottom
            && self.clip_left == other.clip_left && self.clip_right == other.clip_right
    }
}

impl PartialEqSpecImpl for ConfigSnapshot {
    open spec fn obeys_eq_spec() -> bool {
        true
    }

    open spec fn eq_spec(&self, other: &ConfigSnapshot) -> bool {
        self@ == other@
    }
}

/// Two snapshots are equal exactly when every field is: a difference in the
/// path, in one channel of the color, in the width, the height, the aspect
/// flag or any one of the four clip offsets makes them differ, whatever the
/// other fields hold.
pub proof fn lemma_snapshots_differ_in_any_field(a: SnapshotView, b: SnapshotView)
    ensures
        a == b <==> {
            &&& a.path == b.path
            &&& a.color.0 == b.color.0
            &&& a.color.1 == b.color.1
            &&& a.color.2 == b.color.2
            &&& a.width == b.width
            &&& a.height == b.height
            &&& a.maintain_aspect_ratio == b.maintain_aspect_ratio
            &&& a.clip_top == b.clip_top
            &&& a.clip_bottom == b.clip_bottom
            &&& a.clip_left == b.clip_left
            &&& a.clip_right == b.clip_right
        },
{
}

} // verus!
