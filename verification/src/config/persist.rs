//! What the configuration store remembers between saves: whether the
//! configuration changed since it was last written, which slot holds the
//! newest copy, and the sequence number of the next write.
use vstd::prelude::*;

use crate::config::load::{ActiveSlot, PersistedConfig};
use crate::config::store::spec_target_index;
use crate::config::types::SaveOutcome;

verus! {

#[derive(Clone, Copy, Debug, PartialEq, Eq, Structural)]
pub struct PersistState {
    /// The configuration differs from what flash holds.
    pub dirty: bool,
    /// The slot that holds the newest copy, if any.
    pub active_slot: Option<ActiveSlot>,
    /// Sequence number of the next write.
    pub next_sequence: u32,
}

impl PersistState {
    /// Nothing stored yet.
    pub fn new() -> (s: Self)
        ensures
            s == (PersistState { dirty: false, active_slot: None, next_sequence: 0 }),
    {
        PersistState { dirty: false, active_slot: None, next_sequence: 0 }
    }

    /// Takes over what loading found: its slot and next sequence number; a
    /// migrated configuration still has to be written back.
    pub fn apply_persisted<C>(&mut self, persisted: &PersistedConfig<C>)
        ensures
            *final(self) == (PersistState {
                dirty: persisted.was_migrated,
                active_slot: Some(persisted.active_slot),
                next_sequence: persisted.next_sequence,
            }),
    {
        self.active_slot = Some(persisted.active_slot);
        self.next_sequence = persisted.next_sequence;
        self.dirty = persisted.was_migrated;
    }

    /// What a save does before it writes: nothing when the configuration is
    /// unchanged (`Some(Noop)`), else the write must happen (`None`).
    pub fn save_needed(&self) -> (outcome: Option<SaveOutcome>)
        ensures
            outcome == (if self.dirty {
                None::<SaveOutcome>
            } else {
                Some(SaveOutcome::Noop)
            }),
    {
        if !self.dirty {
            Some(SaveOutcome::Noop)
        } else {
            None
        }
    }

    /// A write to `new_active_slot` succeeded: it holds the newest copy, the
    /// sequence moves on and nothing is left to save.
    pub fn on_save_success(&mut self, new_active_slot: ActiveSlot) -> (outcome: SaveOutcome)
        ensures
            *final(self) == (PersistState {
                dirty: false,
                active_slot: Some(new_active_slot),
                next_sequence: old(self).next_sequence.wrapping_add(1),
            }),
            outcome == SaveOutcome::Saved,
    {
        self.active_slot = Some(new_active_slot);
        self.next_sequence = self.next_sequence.wrapping_add(1);
        self.dirty = false;
        SaveOutcome::Saved
    }

    pub fn mark_dirty(&mut self)
        ensures
            *final(self) == (PersistState { dirty: true, ..*old(self) }),
    {
        self.dirty = true;
    }

    pub fn clear_dirty(&mut self)
        ensures
            *final(self) == (PersistState { dirty: false, ..*old(self) }),
    {
        self.dirty = false;
    }

    pub fn is_dirty(&self) -> (b: bool)
        ensures
            b == self.dirty,
    {
        self.dirty
    }
}

/// The slot numbered `index`.
pub open spec fn spec_slot_at(index: usize) -> ActiveSlot {
    if index == 0 {
        ActiveSlot::A
    } else {
        ActiveSlot::B
    }
}

/// Saves alternate between the two slots: once a save to the slot that
/// `active` leaves free has succeeded, the next save goes to the other one,
/// so a save never overwrites the newest good copy.
pub proof fn lemma_saves_alternate(active: Option<ActiveSlot>)
    ensures
        spec_target_index(Some(spec_slot_at(spec_target_index(active)))) != spec_target_index(
            active,
        ),
        spec_target_index(active) < 2,
        active matches Some(s) ==> spec_slot_at(spec_target_index(active)) != s,
{
}

} // verus!
