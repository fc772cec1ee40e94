//! A request as the host sends it.

use crate::cache::answers;
use crate::cache::delivered;
use crate::cache::settled;
use crate::cache::slot_of;
use crate::cache::CacheEntry;
use crate::cache::CacheStore;
use crate::cache::StoreView;
use crate::error::RenderError;
use crate::frame::Frame;
use crate::snapshot::ConfigSnapshot;
use crate::snapshot::SnapshotView;
use std::sync::Arc;
use vstd::prelude::*;

verus! {

/// What the host asks for on one frame: which instance, and with which
/// parameters. The path may be missing, when no file has been chosen yet.
#[derive(Debug)]
pub struct RenderRequest {
    /// The instance that asks, the same value on every frame.
    pub id: i64,
    pub path: Option<String>,
    pub color: (u8, u8, u8),
    pub width: u32,
    pub height: u32,
    pub maintain_aspect_ratio: bool,
    pub clip_top: u32,
    pub clip_bottom: u32,
    pub clip_left: u32,
    pub clip_right: u32,
}

impl RenderRequest {
    /// The snapshot of the request's parameters; none where it names no file.
    pub open spec fn key(self) -> Option<SnapshotView> {
        match self.path {
            Some(path) => Some(
                SnapshotView {
                    path: path@,
                    color: self.color,
                    width: self.width,
                    height: self.height,
                    maintain_aspect_ratio: self.maintain_aspect_ratio,
                    clip_top: self.clip_top,
                    clip_bottom: self.clip_bottom,
                    clip_left: self.clip_left,
                    clip_right: self.clip_right,
                },
            ),
            None => None,
        }
    }

    /// The snapshot of the request's parameters; none where it names no file.
    pub fn snapshot(&self) -> (r: Option<ConfigSnapshot>)
        ensures
            r is Some <==> self.key() is Some,
            r matches Some(s) ==> Some(s@) == self.key(),
    {
        match &self.path {
            Some(path) => Some(
                ConfigSnapshot::new(
                    path.clone(),
                    self.color,
                    self.width,
                    self.height,
                    self.maintain_aspect_ratio,
                    self.clip_top,
                    self.clip_bottom,
                    self.clip_left,
                    self.clip_right,
                ),
            ),
            None => None,
        }
    }
}

/// What is to be done for a request.
#[derive(Debug)]
pub enum Step {
    /// Nothing: the request names no file.
    Idle,
    /// The slot answers the request; this is its entry.
    Answered(Arc<CacheEntry>),
    /// The slot does not answer the request: the image is to be rendered
    /// for this snapshot, and the outcome settled into the store.
    Render(ConfigSnapshot),
}

/// Whether `step` is what is to be done for `request` while the store
/// holds `slots`.
pub open spec fn decides(slots: StoreView, request: RenderRequest, step: Step) -> bool {
    match request.key() {
        None => step is Idle,
        Some(key) => if answers(slot_of(slots, request.id), key) {
            step matches Step::Answered(entry) && Some(entry@) == slot_of(slots, request.id)
        } else {
            step matches Step::Render(snapshot) && snapshot@ == key
        },
    }
}

/// Decides what is to be done for a request: nothing where it names no
/// file, nothing but to hand out the entry where the slot of its instance
/// answers its snapshot, and a render for that snapshot otherwise.
pub fn decide(store: &CacheStore, request: &RenderRequest) -> (r: Step)
    ensures
        decides(store@, *request, r),
{
    match request.snapshot() {
        None => Step::Idle,
        Some(snapshot) => match store.lookup(request.id, &snapshot) {
            Some(entry) => Step::Answered(entry),
            None => Step::Render(snapshot),
        },
    }
}

/// Serves one request from the store.
///
/// A request without a path does nothing and gives nothing. Any other is
/// answered from the slot of its instance where the slot holds the frame
/// for its snapshot, and rendered with `render_fn` where it does not.
pub fn serve<F>(store: &mut CacheStore, request: &RenderRequest, render_fn: F) -> (r: Result<
    Option<Arc<CacheEntry>>,
    RenderError,
>) where F: FnOnce(&ConfigSnapshot) -> Result<Frame, RenderError>
    requires
        forall|s: ConfigSnapshot|
            request.key() == Some(s@) && !answers(slot_of(old(store)@, request.id), s@)
                ==> render_fn.requires((&s,)),
    ensures
        match request.key() {
            None => final(store)@ == old(store)@ && r matches Ok(None),
            Some(key) => if answers(slot_of(old(store)@, request.id), key) {
                &&& final(store)@ == old(store)@
                &&& r matches Ok(Some(entry)) && Some(entry@) == slot_of(old(store)@, request.id)
            } else {
                exists|s: ConfigSnapshot, outcome: Result<Frame, RenderError>|
                    {
                        &&& s@ == key
                        &&& render_fn.ensures((&s,), outcome)
                        &&& final(store)@ == settled(old(store)@, request.id, key, outcome)
                        &&& match r {
                            Ok(Some(entry)) => delivered(key, outcome, Ok(entry)),
                            Ok(None) => false,
                            Err(error) => delivered(key, outcome, Err(error)),
                        }
                    }
            },
        },
{
    match decide(store, request) {
        Step::Idle => Ok(None),
        Step::Answered(entry) => Ok(Some(entry)),
        Step::Render(snapshot) => {
            let outcome = render_fn(&snapshot);
            match store.settle(request.id, snapshot, outcome) {
                Ok(entry) => Ok(Some(entry)),
                Err(error) => Err(error),
            }
        },
    }
}

} // verus!
