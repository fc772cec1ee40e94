//! The store of rendered frames, one slot per object instance.

use crate::error::RenderError;
use crate::frame::Frame;
use crate::frame::FrameView;
use crate::snapshot::ConfigSnapshot;
use crate::snapshot::SnapshotView;
use dashmap::DashMap;
use std::sync::Arc;
use vstd::prelude::*;

verus! {

/// A rendered frame together with the snapshot it was rendered for.
#[derive(Debug)]
pub struct CacheEntry {
    key: ConfigSnapshot,
    frame: Frame,
}

/// An entry as a mathematical value.
pub ghost struct EntryView {
    pub key: SnapshotView,
    pub frame: FrameView,
}

impl View for CacheEntry {
    type V = EntryView;

    closed spec fn view(&self) -> EntryView {
        EntryView { key: self.key@, frame: self.frame@ }
    }
}

impl CacheEntry {
    /// The snapshot that the frame was rendered for.
    pub fn key(&self) -> (r: &ConfigSnapshot)
        ensures
            r@ == self@.key,
    {
        &self.key
    }

    /// The rendered frame.
    pub fn frame(&self) -> (r: &Frame)
        ensures
            r@ == self@.frame,
    {
        &self.frame
    }
}

/// What a slot holds: nothing before the first successful render, and the
/// latest entry after it.
pub type SlotView = Option<EntryView>;

/// What all the slots hold, by instance identity.
pub type StoreView = Map<i64, SlotView>;

/// The store that has no slot at all.
pub open spec fn vacant() -> StoreView {
    Map::empty()
}

/// The slots after the clear signal, whatever they were before it: none.
pub open spec fn cleared(slots: StoreView) -> StoreView {
    vacant()
}

/// The state of the slot for `id`. An identity that was never asked for has
/// nothing, like one whose renders have all failed.
pub open spec fn slot_of(slots: StoreView, id: i64) -> SlotView {
    if slots.contains_key(id) {
        slots[id]
    } else {
        None
    }
}

/// Whether a slot answers a request: it holds an entry, and the entry was
/// rendered for exactly this snapshot.
pub open spec fn answers(slot: SlotView, snapshot: SnapshotView) -> bool {
    slot matches Some(entry) && entry.key == snapshot
}

/// The slots with one for `id` among them, empty if it was not there.
pub open spec fn opened(slots: StoreView, id: i64) -> StoreView {
    slots.insert(id, slot_of(slots, id))
}

/// The slots after a render for `id` came back with `outcome`: a frame
/// takes the slot over together with its snapshot, a failure leaves what
/// the slot held.
pub open spec fn settled(
    slots: StoreView,
    id: i64,
    snapshot: SnapshotView,
    outcome: Result<Frame, RenderError>,
) -> StoreView {
    match outcome {
        Ok(frame) => slots.insert(id, Some(EntryView { key: snapshot, frame: frame@ })),
        Err(_) => opened(slots, id),
    }
}

/// What the caller gets once a render came back with `outcome`: the entry
/// made of the snapshot and the new frame, or the render's own error.
pub open spec fn delivered(
    snapshot: SnapshotView,
    outcome: Result<Frame, RenderError>,
    reply: Result<Arc<CacheEntry>, RenderError>,
) -> bool {
    match outcome {
        Ok(frame) => reply matches Ok(entry) && entry@ == (EntryView {
            key: snapshot,
            frame: frame@,
        }),
        Err(error) => reply matches Err(e) && e == error,
    }
}

/// `dashmap::DashMap`, the map that keeps the slots. Nothing inside it is
/// visible to a proof: what it holds is spoken of through [`held`] alone.
#[verifier::external_type_specification]
#[verifier::external_body]
#[verifier::reject_recursive_types(K)]
#[verifier::reject_recursive_types(V)]
#[verifier::reject_recursive_types(S)]
pub struct ExDashMap<K, V, S>(DashMap<K, V, S>);

/// What a map of slots holds: the identities that have a slot, each with
/// the value of its slot. It has no definition. What is known of it is what
/// the four functions below state of `DashMap::new`, `get`, `insert` and
/// `clear`, none of which is proved here.
pub uninterp spec fn held(slots: DashMap<i64, Option<Arc<CacheEntry>>>) -> StoreView;

/// The mathematical value of what is stored in a slot.
pub open spec fn slot_view(slot: Option<Arc<CacheEntry>>) -> SlotView {
    match slot {
        Some(entry) => Some(entry@),
        None => None,
    }
}

/// Makes a map with `DashMap::new`, which holds no slot.
#[verifier::external_body]
fn no_slots() -> (r: DashMap<i64, Option<Arc<CacheEntry>>>)
    ensures
        held(r) == vacant(),
{
    DashMap::new()
}

/// Reads the slot for `id` with `DashMap::get`, which finds the slot of a
/// key that the map holds and nothing for any other key. What the slot
/// holds is handed out by `Ref::value` and a clone of the `Arc`, so that
/// the entry is shared, not copied, and no lock on the map outlives the
/// call. The outer `None` means that the map has no slot for `id`.
#[verifier::external_body]
fn slot_at(slots: &DashMap<i64, Option<Arc<CacheEntry>>>, id: i64) -> (r: Option<
    Option<Arc<CacheEntry>>,
>)
    ensures
        r is Some <==> held(*slots).contains_key(id),
        r matches Some(slot) ==> slot_view(slot) == held(*slots)[id],
{
    match slots.get(&id) {
        Some(guard) => Some(guard.value().clone()),
        None => None,
    }
}

/// Sets the slot for `id` with `DashMap::insert`, which adds the key with
/// the value where the map had no such key, replaces the value where it
/// had, and leaves every other key as it was.
#[verifier::external_body]
fn put_slot(slots: &mut DashMap<i64, Option<Arc<CacheEntry>>>, id: i64, slot: Option<
    Arc<CacheEntry>,
>)
    ensures
        held(*final(slots)) == held(*old(slots)).insert(id, slot_view(slot)),
{
    slots.insert(id, slot);
}

/// Empties the map with `DashMap::clear`, which removes every key.
#[verifier::external_body]
fn drop_slots(slots: &mut DashMap<i64, Option<Arc<CacheEntry>>>)
    ensures
        held(*final(slots)) == vacant(),
{
    slots.clear();
}

/// The frames rendered so far, at most one per instance identity.
pub struct CacheStore {
    slots: DashMap<i64, Option<Arc<CacheEntry>>>,
}

impl View for CacheStore {
    type V = StoreView;

    closed spec fn view(&self) -> StoreView {
        held(self.slots)
    }
}

impl CacheStore {
    /// A store without slots.
    pub fn new() -> (r: CacheStore)
        ensures
            r@ == vacant(),
    {
        CacheStore { slots: no_slots() }
    }

    /// Removes every slot, so that the next request for any identity
    /// renders anew: after it no identity has a slot, and no snapshot is
    /// answered for any identity, whatever the store held before.
    pub fn clear(&mut self)
        ensures
            final(self)@ == cleared(old(self)@),
            forall|id: i64| !final(self)@.contains_key(id),
            forall|id: i64| #[trigger] slot_of(final(self)@, id) is None,
            forall|id: i64, snapshot: SnapshotView|
                !#[trigger] answers(slot_of(final(self)@, id), snapshot),
    {
        drop_slots(&mut self.slots);
    }

    /// The entry that answers a request for `id` with `snapshot`, if the
    /// slot holds one.
    pub fn lookup(&self, id: i64, snapshot: &ConfigSnapshot) -> (r: Option<Arc<CacheEntry>>)
        ensures
            r is Some <==> answers(slot_of(self@, id), snapshot@),
            r matches Some(entry) ==> Some(entry@) == slot_of(self@, id),
    {
        match slot_at(&self.slots, id) {
            Some(Some(entry)) => {
                if entry.key == *snapshot {
                    Some(entry)
                } else {
                    None
                }
            },
            _ => None,
        }
    }

    /// Records how a render for `id` with `snapshot` came out.
    ///
    /// A frame replaces whatever the slot held and is handed back as the
    /// slot's new entry. A failure is handed back as it is; the slot keeps
    /// what it held, and an identity that had no slot gets an empty one.
    pub fn settle(
        &mut self,
        id: i64,
        snapshot: ConfigSnapshot,
        outcome: Result<Frame, RenderError>,
    ) -> (r: Result<Arc<CacheEntry>, RenderError>)
        ensures
            final(self)@ == settled(old(self)@, id, snapshot@, outcome),
            delivered(snapshot@, outcome, r),
    {
        match outcome {
            Ok(frame) => {
                let entry = Arc::new(CacheEntry { key: snapshot, frame });
                put_slot(&mut self.slots, id, Some(entry));
                match slot_at(&self.slots, id) {
                    Some(Some(stored)) => Ok(stored),
                    _ => unreached(),
                }
            },
            Err(error) => {
                if slot_at(&self.slots, id).is_none() {
                    put_slot(&mut self.slots, id, None);
                }
                Err(error)
            },
        }
    }

    /// Answers a request for `id` with `snapshot`, rendering only if the
    /// slot does not already hold the frame for this very snapshot.
    ///
    /// Where the slot answers, its entry is returned and nothing else
    /// happens: `render_fn` need not even be callable. Otherwise `render_fn`
    /// is called once with the snapshot, and what it returns is settled into
    /// the slot.
    pub fn get_or_render<F>(&mut self, id: i64, snapshot: ConfigSnapshot, render_fn: F) -> (r:
        Result<Arc<CacheEntry>, RenderError>) where
        F: FnOnce(&ConfigSnapshot) -> Result<Frame, RenderError>,

        requires
            !answers(slot_of(old(self)@, id), snapshot@) ==> render_fn.requires((&snapshot,)),
        ensures
            answers(slot_of(old(self)@, id), snapshot@) ==> {
                &&& final(self)@ == old(self)@
                &&& r matches Ok(entry) && Some(entry@) == slot_of(old(self)@, id)
            },
            !answers(slot_of(old(self)@, id), snapshot@) ==> exists|
                outcome: Result<Frame, RenderError>,
            |
                {
                    &&& render_fn.ensures((&snapshot,), outcome)
                    &&& final(self)@ == settled(old(self)@, id, snapshot@, outcome)
                    &&& delivered(snapshot@, outcome, r)
                },
    {
        match self.lookup(id, &snapshot) {
            Some(entry) => Ok(entry),
            None => {
                let outcome = render_fn(&snapshot);
                self.settle(id, snapshot, outcome)
            },
        }
    }
}

/// Of two requests in a row for one identity with one snapshot, the second
/// needs no render: whatever the store held before, once the first has
/// come back with a frame the slot answers that snapshot, and by exactly
/// that frame.
pub proof fn lemma_repeated_request_is_answered(
    slots: StoreView,
    id: i64,
    snapshot: SnapshotView,
    frame: Frame,
)
    ensures
        answers(slot_of(settled(slots, id, snapshot, Ok(frame)), id), snapshot),
        slot_of(settled(slots, id, snapshot, Ok(frame)), id) == Some(
            EntryView { key: snapshot, frame: frame@ },
        ),
{
}

/// An entry answers no snapshot that differs from its own in any one field,
/// whatever the other fields hold.
pub proof fn lemma_changed_field_is_not_answered(entry: EntryView, snapshot: SnapshotView)
    requires
        entry.key.path != snapshot.path || entry.key.color.0 != snapshot.color.0
            || entry.key.color.1 != snapshot.color.1 || entry.key.color.2 != snapshot.color.2
            || entry.key.width != snapshot.width || entry.key.height != snapshot.height
            || entry.key.maintain_aspect_ratio != snapshot.maintain_aspect_ratio
            || entry.key.clip_top != snapshot.clip_top || entry.key.clip_bottom
            != snapshot.clip_bottom || entry.key.clip_left != snapshot.clip_left
            || entry.key.clip_right != snapshot.clip_right,
    ensures
        !answers(Some(entry), snapshot),
{
}

/// An empty slot answers no request at all, and in a store without slots
/// every identity has an empty slot.
pub proof fn lemma_vacant_store_answers_nothing(id: i64, snapshot: SnapshotView)
    ensures
        slot_of(vacant(), id) == None::<EntryView>,
        !answers(None, snapshot),
        !answers(slot_of(vacant(), id), snapshot),
{
}

/// The clear signal resets every identity. Whatever the store held, and so
/// also where frames had been settled for two identities `a` and `b`,
/// after the clear no identity has a slot and no snapshot is answered for
/// any identity: a request that was answered before the clear is rendered
/// anew after it. The render that follows fills the slot again, so that
/// it is one render and no more.
pub proof fn lemma_clear_resets_every_identity(
    slots: StoreView,
    a: i64,
    in_a: SnapshotView,
    frame_a: Frame,
    b: i64,
    in_b: SnapshotView,
    frame_b: Frame,
    id: i64,
    snapshot: SnapshotView,
    frame: Frame,
)
    ensures
        !cleared(slots).contains_key(id),
        slot_of(cleared(slots), id) == None::<EntryView>,
        !answers(slot_of(cleared(slots), id), snapshot),
        !answers(
            slot_of(
                cleared(settled(settled(slots, a, in_a, Ok(frame_a)), b, in_b, Ok(frame_b))),
                a,
            ),
            in_a,
        ),
        !answers(
            slot_of(
                cleared(settled(settled(slots, a, in_a, Ok(frame_a)), b, in_b, Ok(frame_b))),
                b,
            ),
            in_b,
        ),
        answers(slot_of(settled(cleared(slots), id, snapshot, Ok(frame)), id), snapshot),
{
}

/// A failed render changes the state of no slot: every identity, the one
/// asked for among them, holds after it what it held before, and is
/// answered for the same snapshots.
pub proof fn lemma_failure_keeps_every_slot(
    slots: StoreView,
    id: i64,
    snapshot: SnapshotView,
    error: RenderError,
    other: i64,
)
    ensures
        slot_of(settled(slots, id, snapshot, Err(error)), other) == slot_of(slots, other),
{
}

/// A render for one identity, however it comes out, leaves the slots of all
/// other identities as they were, and never empties a slot that held a
/// frame.
pub proof fn lemma_settling_is_local(
    slots: StoreView,
    id: i64,
    snapshot: SnapshotView,
    outcome: Result<Frame, RenderError>,
    other: i64,
)
    ensures
        other != id ==> slot_of(settled(slots, id, snapshot, outcome), other) == slot_of(
            slots,
            other,
        ),
        slot_of(slots, other) is Some ==> slot_of(
            settled(slots, id, snapshot, outcome),
            other,
        ) is Some,
{
}

} // verus!
