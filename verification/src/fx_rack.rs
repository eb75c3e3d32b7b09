//! Selection and editing of the per-track MIDI FX racks from the timeline.
//!
//! Each rack shows its first four slots, empty ones included, as addressable rows. One row is
//! selected per rack; the edit field decides whether actions change the effect kind or the
//! parameter under the parameter window of the selected slot.
use vstd::prelude::*;
use crate::app::{App, TimelineContext, TimelineFxField};
use crate::midi_fx::{MidiFxSlot, cycle_existing_fx_kind, cycle_fx_kind, spec_cycle_existing, spec_fill_empty};
use crate::project::{MidiFxChainKind, Track};

verus! {

/// Most rows a rack shows.
pub const DISPLAYED_FX_ROWS: usize = 4;

pub open spec fn min_nat(a: nat, b: nat) -> nat {
    if a <= b { a } else { b }
}

/// Every field but the project is unchanged.
pub open spec fn same_app_fields(a: App, b: App) -> bool {
    &&& a.overlay_state == b.overlay_state
    &&& a.focused_track_view == b.focused_track_view
    &&& a.timeline_flow == b.timeline_flow
    &&& a.transport_ticks == b.transport_ticks
    &&& a.playhead_ticks == b.playhead_ticks
    &&& a.live_fx_ticks == b.live_fx_ticks
    &&& a.clip_align_session == b.clip_align_session
    &&& a.clip_align_defaults == b.clip_align_defaults
    &&& a.ui_density_preset == b.ui_density_preset
    &&& a.viewport_size == b.viewport_size
    &&& a.fx_menu == b.fx_menu
}

/// Only rack `kind` of the active track (its slots, windows and selected row) may differ.
pub open spec fn fx_frame(a: App, b: App, kind: MidiFxChainKind) -> bool {
    &&& same_app_fields(a, b)
    &&& b.project.active_track_index == a.project.active_track_index
    &&& b.project.transport == a.project.transport
    &&& b.project.loop_region == a.project.loop_region
    &&& b.project.tracks@.len() == a.project.tracks@.len()
    &&& forall|i: int| 0 <= i < a.project.tracks@.len() && i != a.project.active_track_index ==> #[trigger] b.project.tracks@[i] == a.project.tracks@[i]
    &&& a.has_active() ==> {
        &&& b.active() == Track { midi_fx: b.active().midi_fx, ..a.active() }
        &&& b.active().midi_fx.same_except(a.active().midi_fx, kind)
    }
    &&& !a.has_active() ==> b.project.tracks == a.project.tracks
}

/// Effect of `set_selected_timeline_fx_row`: the stored row of rack `kind` of the active
/// track becomes `row_index`, clamped to the shown rows; nothing else changes.
pub open spec fn fx_row_set(a: App, b: App, kind: MidiFxChainKind, row_index: usize) -> bool {
    &&& fx_frame(a, b, kind)
    &&& b.page_state == a.page_state
    &&& a.has_active() ==> b.active().midi_fx.chain(kind) == a.active().midi_fx.chain(kind)
    &&& a.has_active() ==> b.active().midi_fx.windows(kind) == a.active().midi_fx.windows(kind)
    &&& a.has_active() ==> b.active().midi_fx.stored_row(kind) == (
        if a.shown_rows(kind) == 0 { 0 } else { min_nat(row_index as nat, (a.shown_rows(kind) - 1) as nat) })
}

/// Nothing at all changes.
pub open spec fn unchanged(a: App, b: App) -> bool {
    &&& same_app_fields(a, b)
    &&& b.project == a.project
    &&& b.page_state == a.page_state
}

/// The app after replacing the active track's rack `kind` state.
impl App {
    /// Slots of rack `kind` of the active track.
    pub open spec fn chain_of(self, kind: MidiFxChainKind) -> Seq<Option<MidiFxSlot>> {
        if self.has_active() { self.active().midi_fx.chain(kind) } else { Seq::empty() }
    }

    /// Rows the rack shows.
    pub open spec fn shown_rows(self, kind: MidiFxChainKind) -> nat {
        min_nat(self.chain_of(kind).len(), DISPLAYED_FX_ROWS as nat)
    }

    /// The stored selected row, clamped to the shown rows.
    pub open spec fn spec_selected_row(self, kind: MidiFxChainKind) -> nat {
        if self.shown_rows(kind) == 0 {
            0
        } else {
            min_nat(self.active().midi_fx.stored_row(kind) as nat, (self.shown_rows(kind) - 1) as nat)
        }
    }

    /// The slot the selected row addresses.
    pub open spec fn spec_selected_slot(self, kind: MidiFxChainKind) -> Option<nat> {
        if self.shown_rows(kind) == 0 { None } else { Some(self.spec_selected_row(kind)) }
    }

    /// Parameter window of the selected slot.
    pub open spec fn spec_selected_window(self, kind: MidiFxChainKind) -> nat {
        match self.spec_selected_slot(kind) {
            Some(s) => if s < self.active().midi_fx.windows(kind).len() { self.active().midi_fx.windows(kind)[s as int] as nat } else { 0 },
            None => 0,
        }
    }

    /// Content of the selected slot.
    pub open spec fn spec_selected_content(self, kind: MidiFxChainKind) -> Option<MidiFxSlot> {
        match self.spec_selected_slot(kind) {
            Some(s) => self.chain_of(kind)[s as int],
            None => None,
        }
    }

    /// Number of slots of rack `kind` of the active track.
    fn active_chain_len(&self, kind: MidiFxChainKind) -> (r: usize)
        ensures
            r == self.chain_of(kind).len(),
    {
        if self.project.active_track_index < self.project.tracks.len() {
            self.project.tracks[self.project.active_track_index].midi_fx.chain_len(kind)
        } else {
            0
        }
    }

    /// Rows of a rack: the slot each row addresses.
    pub fn displayed_timeline_fx_slot_indices_for_track(&self, track: &Track, kind: MidiFxChainKind) -> (r: Vec<Option<usize>>)
        ensures
            r@.len() == min_nat(track.midi_fx.chain(kind).len(), DISPLAYED_FX_ROWS as nat),
            forall|i: int| 0 <= i < r@.len() ==> #[trigger] r@[i] == Some(i as usize),
    {
        let len = track.midi_fx.chain_len(kind);
        let count = if len < DISPLAYED_FX_ROWS { len } else { DISPLAYED_FX_ROWS };
        let mut r: Vec<Option<usize>> = Vec::new();
        let mut i: usize = 0;
        while i < count
            invariant
                i <= count,
                r@.len() == i,
                forall|j: int| 0 <= j < i ==> #[trigger] r@[j] == Some(j as usize),
            decreases count - i,
        {
            r.push(Some(i));
            i = i + 1;
        }
        r
    }

    /// Rows of rack `kind` of the active track.
    pub fn displayed_timeline_fx_slot_indices(&self, kind: MidiFxChainKind) -> (r: Vec<Option<usize>>)
        ensures
            r@.len() == self.shown_rows(kind),
            forall|i: int| 0 <= i < r@.len() ==> #[trigger] r@[i] == Some(i as usize),
    {
        if self.project.active_track_index < self.project.tracks.len() {
            self.displayed_timeline_fx_slot_indices_for_track(&self.project.tracks[self.project.active_track_index], kind)
        } else {
            Vec::new()
        }
    }

    /// Slots of a rack that hold an effect, in slot order.
    pub fn active_timeline_fx_slot_indices_for_track(&self, track: &Track, kind: MidiFxChainKind) -> (r: Vec<usize>)
        ensures
            r@ == occupied_slots(track.midi_fx.chain(kind)),
    {
        let len = track.midi_fx.chain_len(kind);
        let mut r: Vec<usize> = Vec::new();
        let mut i: usize = 0;
        while i < len
            invariant
                i <= len,
                len == track.midi_fx.chain(kind).len(),
                r@ == occupied_slots(track.midi_fx.chain(kind).take(i as int)),
            decreases len - i,
        {
            let slot = track.midi_fx.slot(kind, i);
            proof {
                let next = track.midi_fx.chain(kind).take(i as int + 1);
                assert(next.drop_last() =~= track.midi_fx.chain(kind).take(i as int));
                assert(next.len() == i + 1);
            }
            if slot.is_some() {
                r.push(i);
            }
            i = i + 1;
        }
        assert(track.midi_fx.chain(kind).take(len as int) =~= track.midi_fx.chain(kind));
        r
    }

    /// Occupied slots of rack `kind` of the active track.
    pub fn active_timeline_fx_slot_indices(&self, kind: MidiFxChainKind) -> (r: Vec<usize>)
        ensures
            r@ == occupied_slots(self.chain_of(kind)),
    {
        if self.project.active_track_index < self.project.tracks.len() {
            self.active_timeline_fx_slot_indices_for_track(&self.project.tracks[self.project.active_track_index], kind)
        } else {
            let r: Vec<usize> = Vec::new();
            assert(occupied_slots(Seq::<Option<MidiFxSlot>>::empty()) == Seq::<usize>::empty());
            r
        }
    }

    /// The selected row of a rack, clamped to its shown rows.
    pub fn selected_timeline_fx_row(&self, kind: MidiFxChainKind) -> (r: usize)
        ensures
            r == self.spec_selected_row(kind),
            self.shown_rows(kind) > 0 ==> r < self.shown_rows(kind),
    {
        let len = self.active_chain_len(kind);
        let shown = if len < DISPLAYED_FX_ROWS { len } else { DISPLAYED_FX_ROWS };
        if shown == 0 {
            return 0;
        }
        let stored = self.project.tracks[self.project.active_track_index].midi_fx.selected_row(kind);
        if stored < shown - 1 { stored } else { shown - 1 }
    }

    /// Selects row `row_index` of a rack, clamped to its shown rows.
    pub fn set_selected_timeline_fx_row(&mut self, kind: MidiFxChainKind, row_index: usize)
        ensures
            old(self).wf() ==> final(self).wf(),
            fx_row_set(*old(self), *final(self), kind, row_index),
    {
        let len = self.active_chain_len(kind);
        let shown = if len < DISPLAYED_FX_ROWS { len } else { DISPLAYED_FX_ROWS };
        let clamped = if shown == 0 { 0 } else if row_index < shown - 1 { row_index } else { shown - 1 };
        let idx = self.project.active_track_index;
        if idx < self.project.tracks.len() {
            self.project.tracks[idx].midi_fx.set_selected_row(kind, clamped);
        }
        proof {
            if old(self).wf() {
                lemma_rack_edit_keeps_wf(*old(self), *self, kind);
            }
        }
    }

    /// The slot the selected row addresses.
    pub fn selected_timeline_fx_slot_index(&self, kind: MidiFxChainKind) -> (r: Option<usize>)
        ensures
            r is Some <==> self.spec_selected_slot(kind) is Some,
            r matches Some(s) ==> self.spec_selected_slot(kind) == Some(s as nat),
            r matches Some(s) ==> s < self.chain_of(kind).len(),
    {
        let displayed = self.displayed_timeline_fx_slot_indices(kind);
        let row = self.selected_timeline_fx_row(kind);
        if row < displayed.len() {
            displayed[row]
        } else {
            None
        }
    }

    /// The effect in the selected slot of `track`'s rack, if the slot holds one.
    pub fn selected_timeline_fx_slot(&self, track: &Track, kind: MidiFxChainKind) -> (r: Option<MidiFxSlot>)
        ensures
            r == (match self.spec_selected_slot(kind) {
                Some(s) => if s < track.midi_fx.chain(kind).len() { track.midi_fx.chain(kind)[s as int] } else { None },
                None => None,
            }),
    {
        match self.selected_timeline_fx_slot_index(kind) {
            Some(s) => if s < track.midi_fx.chain_len(kind) {
                track.midi_fx.slot(kind, s)
            } else {
                None
            },
            None => None,
        }
    }

    /// Parameter window of the selected slot.
    pub fn selected_timeline_fx_param_window(&self, kind: MidiFxChainKind) -> (r: usize)
        ensures
            r == self.spec_selected_window(kind),
    {
        match self.selected_timeline_fx_slot_index(kind) {
            Some(s) => self.project.tracks[self.project.active_track_index].midi_fx.window(kind, s),
            None => 0,
        }
    }

    /// Parameter window of a slot of the rack a context addresses.
    pub fn timeline_fx_param_window_for_slot(&self, context: TimelineContext, slot_index: usize) -> (r: usize)
        ensures
            (self.has_active() && context.spec_chain_kind() is Some
                && slot_index < self.active().midi_fx.windows(context.spec_chain_kind()->0).len())
                ==> r == self.active().midi_fx.windows(context.spec_chain_kind()->0)[slot_index as int],
            !(self.has_active() && context.spec_chain_kind() is Some
                && slot_index < self.active().midi_fx.windows(context.spec_chain_kind()->0).len()) ==> r == 0,
    {
        if self.project.active_track_index >= self.project.tracks.len() {
            return 0;
        }
        match context.chain_kind() {
            Some(kind) => self.project.tracks[self.project.active_track_index].midi_fx.window(kind, slot_index),
            None => 0,
        }
    }

    /// Sets the parameter window of the selected slot.
    pub fn set_selected_timeline_fx_param_window(&mut self, kind: MidiFxChainKind, start: usize)
        ensures
            old(self).wf() ==> final(self).wf(),
            fx_window_set(*old(self), *final(self), kind, start),
    {
        let slot = match self.selected_timeline_fx_slot_index(kind) {
            Some(s) => s,
            None => return,
        };
        let idx = self.project.active_track_index;
        self.project.tracks[idx].midi_fx.set_window(kind, slot, start);
        proof {
            if old(self).wf() {
                lemma_rack_edit_keeps_wf(*old(self), *self, kind);
            }
        }
    }
}

/// Slot positions of `chain` that hold an effect, in order.
pub open spec fn occupied_slots(chain: Seq<Option<MidiFxSlot>>) -> Seq<usize>
    decreases chain.len(),
{
    if chain.len() == 0 {
        Seq::empty()
    } else {
        let rest = occupied_slots(chain.drop_last());
        if chain.last() is Some { rest.push((chain.len() - 1) as usize) } else { rest }
    }
}

/// `(position + delta)` taken around a cycle of `count` positions.
pub fn wrap_offset(position: usize, delta: i32, count: usize) -> (r: usize)
    requires
        count > 0,
    ensures
        r == (position as int + delta as int) % (count as int),
        r < count,
{
    let p = position % count;
    if delta >= 0 {
        let d = (delta as usize) % count;
        proof {
            vstd::arithmetic::div_mod::lemma_add_mod_noop(position as int, delta as int, count as int);
        }
        (((p as u128) + (d as u128)) % (count as u128)) as usize
    } else {
        let magnitude: u64 = (-(delta as i64)) as u64;
        let m = (magnitude % (count as u64)) as usize;
        proof {
            vstd::arithmetic::div_mod::lemma_sub_mod_noop(position as int, magnitude as int, count as int);
            vstd::arithmetic::div_mod::lemma_mod_add_multiples_vanish(p as int - m as int, count as int);
        }
        (((p as u128) + (count as u128) - (m as u128)) % (count as u128)) as usize
    }
}

/// A slot with its bypass state flipped; empty slots stay empty.
pub open spec fn toggled(c: Option<MidiFxSlot>) -> Option<MidiFxSlot> {
    match c {
        Some(slot) => Some(MidiFxSlot { enabled: !slot.enabled, ..slot }),
        None => None,
    }
}

/// A slot after stepping its kind: effects switch kind, empty slots get their first effect.
pub open spec fn kind_stepped(c: Option<MidiFxSlot>, delta: int) -> Option<MidiFxSlot> {
    match c {
        Some(slot) => Some(spec_cycle_existing(slot, delta)),
        None => spec_fill_empty(delta),
    }
}

/// A slot after stepping inline parameter `index` of its effect.
pub open spec fn parameter_stepped(c: Option<MidiFxSlot>, index: nat, delta: int, track_count: nat) -> Option<MidiFxSlot> {
    match c {
        Some(slot) => Some(MidiFxSlot { effect: slot.effect.spec_adjusted(index, delta, track_count), ..slot }),
        None => None,
    }
}

/// `value` clamped into `[lo, hi]`.
pub open spec fn clamp_int(value: int, lo: int, hi: int) -> int {
    if value < lo { lo } else if value > hi { hi } else { value }
}

pub open spec fn signum(delta: int) -> int {
    if delta > 0 { 1 } else if delta < 0 { -1 } else { 0 }
}

/// Windows after resetting the window of slot `s` to zero.
pub open spec fn reset_window(w: Seq<usize>, s: nat) -> Seq<usize> {
    if s < w.len() { w.update(s as int, 0usize) } else { w }
}

impl App {
    /// Re-clamps the stored selected row of the rack the context addresses.
    pub fn normalize_timeline_fx_selection(&mut self)
        ensures
            old(self).wf() ==> final(self).wf(),
            final(self).page_state == old(self).page_state,
            match old(self).page_state.selected_timeline_context.spec_chain_kind() {
                Some(kind) => {
                    &&& fx_frame(*old(self), *final(self), kind)
                    &&& old(self).has_active() ==> final(self).active().midi_fx.chain(kind) == old(self).active().midi_fx.chain(kind)
                    &&& old(self).has_active() ==> final(self).active().midi_fx.windows(kind) == old(self).active().midi_fx.windows(kind)
                    &&& old(self).has_active() ==> final(self).active().midi_fx.stored_row(kind) == old(self).spec_selected_row(kind)
                },
                None => unchanged(*old(self), *final(self)),
            },
    {
        if let Some(kind) = self.page_state.selected_timeline_context.chain_kind() {
            let row = self.selected_timeline_fx_row(kind);
            self.set_selected_timeline_fx_row(kind, row);
        }
    }

    /// Enables or bypasses the effect in the selected slot.
    pub fn toggle_selected_timeline_fx_enabled(&mut self)
        ensures
            old(self).wf() ==> final(self).wf(),
            fx_enabled_toggled(*old(self), *final(self)),
    {
        let kind = match self.page_state.selected_timeline_context.chain_kind() {
            Some(kind) => kind,
            None => return,
        };
        let s = match self.selected_timeline_fx_slot_index(kind) {
            Some(s) => s,
            None => return,
        };
        let idx = self.project.active_track_index;
        let current = self.project.tracks[idx].midi_fx.slot(kind, s);
        match current {
            Some(slot) => {
                self.project.tracks[idx].midi_fx.set_slot(kind, s, Some(MidiFxSlot { enabled: !slot.enabled, ..slot }));
            },
            None => {
                assert(old(self).active().midi_fx.chain(kind).update(s as int, None) =~= old(self).active().midi_fx.chain(kind));
            },
        }
        proof {
            if old(self).wf() {
                lemma_rack_edit_keeps_wf(*old(self), *self, kind);
            }
        }
    }

    /// The selected slot of the rack the context addresses, if it addresses one.
    pub open spec fn spec_selected_slot_of_context(self) -> Option<nat> {
        match self.page_state.selected_timeline_context.spec_chain_kind() {
            Some(kind) => self.spec_selected_slot(kind),
            None => None,
        }
    }

    /// Steps the kind of the selected slot; an empty slot receives its first effect. The
    /// parameter window of the slot starts over.
    pub fn adjust_selected_timeline_fx_kind(&mut self, delta: i32)
        ensures
            old(self).wf() ==> final(self).wf(),
            fx_kind_adjusted(*old(self), *final(self), delta),
    {
        let kind = match self.page_state.selected_timeline_context.chain_kind() {
            Some(kind) => kind,
            None => return,
        };
        let s = match self.selected_timeline_fx_slot_index(kind) {
            Some(s) => s,
            None => return,
        };
        let idx = self.project.active_track_index;
        let next = match self.project.tracks[idx].midi_fx.slot(kind, s) {
            Some(slot) => Some(cycle_existing_fx_kind(&slot, delta)),
            None => cycle_fx_kind(delta),
        };
        self.project.tracks[idx].midi_fx.set_slot(kind, s, next);
        self.project.tracks[idx].midi_fx.set_window(kind, s, 0);
        proof {
            if old(self).wf() {
                lemma_rack_edit_keeps_wf(*old(self), *self, kind);
            }
        }
    }

    /// Adds an effect to the selected slot when it is empty.
    pub fn add_selected_timeline_fx(&mut self)
        ensures
            old(self).wf() ==> final(self).wf(),
            fx_added(*old(self), *final(self)),
    {
        let kind = match self.page_state.selected_timeline_context.chain_kind() {
            Some(kind) => kind,
            None => return,
        };
        let current = if self.project.active_track_index < self.project.tracks.len() {
            self.selected_timeline_fx_slot(&self.project.tracks[self.project.active_track_index], kind)
        } else {
            None
        };
        if current.is_none() {
            self.adjust_selected_timeline_fx_kind(1);
        }
    }

    /// Empties the selected slot and resets its parameter window.
    pub fn delete_selected_timeline_fx(&mut self)
        ensures
            old(self).wf() ==> final(self).wf(),
            fx_deleted(*old(self), *final(self)),
    {
        let kind = match self.page_state.selected_timeline_context.chain_kind() {
            Some(kind) => kind,
            None => return,
        };
        let s = match self.selected_timeline_fx_slot_index(kind) {
            Some(s) => s,
            None => return,
        };
        let idx = self.project.active_track_index;
        self.project.tracks[idx].midi_fx.set_slot(kind, s, None);
        self.project.tracks[idx].midi_fx.set_window(kind, s, 0);
        self.normalize_timeline_fx_selection();
    }

    /// Steps inline parameter `parameter_index` of the effect in the selected slot.
    pub fn adjust_selected_timeline_fx_parameter(&mut self, parameter_index: usize, delta: i32)
        ensures
            old(self).wf() ==> final(self).wf(),
            fx_parameter_adjusted(*old(self), *final(self), parameter_index, delta),
    {
        let kind = match self.page_state.selected_timeline_context.chain_kind() {
            Some(kind) => kind,
            None => return,
        };
        let s = match self.selected_timeline_fx_slot_index(kind) {
            Some(s) => s,
            None => return,
        };
        let track_count = self.project.tracks.len();
        let idx = self.project.active_track_index;
        match self.project.tracks[idx].midi_fx.slot(kind, s) {
            Some(slot) => {
                let mut effect = slot.effect;
                effect.adjust_inline_parameter(parameter_index, delta, track_count);
                self.project.tracks[idx].midi_fx.set_slot(kind, s, Some(MidiFxSlot { effect, ..slot }));
            },
            None => {
                assert(old(self).active().midi_fx.chain(kind).update(s as int, None) =~= old(self).active().midi_fx.chain(kind));
            },
        }
        proof {
            if old(self).wf() {
                lemma_rack_edit_keeps_wf(*old(self), *self, kind);
            }
        }
    }

    /// Moves the parameter window of the selected slot by `delta`, wrapping around the
    /// effect's parameters.
    pub fn scroll_selected_timeline_fx_parameter_window(&mut self, delta: i32)
        ensures
            old(self).wf() ==> final(self).wf(),
            fx_window_scrolled(*old(self), *final(self), delta),
    {
        let kind = match self.page_state.selected_timeline_context.chain_kind() {
            Some(kind) => kind,
            None => return,
        };
        let current = if self.project.active_track_index < self.project.tracks.len() {
            self.selected_timeline_fx_slot(&self.project.tracks[self.project.active_track_index], kind)
        } else {
            None
        };
        let count = match current {
            Some(slot) => slot.effect.inline_parameter_count(),
            None => return,
        };
        let window = self.selected_timeline_fx_param_window(kind);
        let next = wrap_offset(window, delta, count);
        self.set_selected_timeline_fx_param_window(kind, next);
    }
}

/// Where a move by `delta` takes the selected slot: one row towards `delta`, inside the rows.
pub open spec fn move_target(source: nat, delta: int, rows: nat) -> int {
    clamp_int(source + signum(delta), 0, rows - 1)
}

impl App {
    /// Moves the effect in the selected slot one row up or down, swapping it with whatever is
    /// there; the selection follows the effect.
    pub fn move_selected_timeline_fx(&mut self, delta: i32)
        requires
            old(self).wf(),
        ensures
            final(self).wf(),
            fx_moved(*old(self), *final(self), delta),
    {
        let kind = match self.page_state.selected_timeline_context.chain_kind() {
            Some(kind) => kind,
            None => return,
        };
        let source = match self.selected_timeline_fx_slot_index(kind) {
            Some(s) => s,
            None => return,
        };
        let count = self.displayed_timeline_fx_slot_indices(kind).len();
        let target: usize = if delta > 0 {
            if source + 1 < count { source + 1 } else { count - 1 }
        } else if delta < 0 {
            if source > 0 { source - 1 } else { 0 }
        } else {
            source
        };
        if source == target {
            return;
        }
        let idx = self.project.active_track_index;
        if self.project.tracks[idx].midi_fx.slot(kind, source).is_none() {
            return;
        }
        proof {
            assert(self.project.tracks@[idx as int].wf());
        }
        self.project.tracks[idx].midi_fx.swap_slots(kind, source, target);
        self.set_selected_timeline_fx_row(kind, target);
        proof {
            assert forall|i: int| 0 <= i < self.project.tracks@.len() implies (#[trigger] self.project.tracks@[i]).wf() by {
                if i != idx {
                    assert(self.project.tracks@[i] == old(self).project.tracks@[i]);
                }
            }
        }
    }

    /// Selects the row `delta` rows away, wrapping around; while parameters are being edited
    /// the parameter window moves instead.
    pub fn select_timeline_fx_row(&mut self, delta: i32)
        ensures
            old(self).wf() ==> final(self).wf(),
            fx_row_selected(*old(self), *final(self), delta),
    {
        let kind = match self.page_state.selected_timeline_context.chain_kind() {
            Some(kind) => kind,
            None => return,
        };
        if self.page_state.selected_timeline_fx_field == TimelineFxField::ParamPrimary {
            self.scroll_selected_timeline_fx_parameter_window(delta);
        } else {
            let count = self.displayed_timeline_fx_slot_indices(kind).len();
            if count > 0 {
                let row = self.selected_timeline_fx_row(kind);
                let next = wrap_offset(row, delta, count);
                self.set_selected_timeline_fx_row(kind, next);
            }
        }
    }

    /// The keyboard or mapped adjust action: steps the parameter under the window while
    /// parameters are being edited, the effect kind otherwise.
    pub fn adjust_timeline_context(&mut self, delta: i32)
        ensures
            old(self).wf() ==> final(self).wf(),
            fx_context_adjusted(*old(self), *final(self), delta),
    {
        let kind = match self.page_state.selected_timeline_context.chain_kind() {
            Some(kind) => kind,
            None => return,
        };
        if self.page_state.selected_timeline_fx_field == TimelineFxField::ParamPrimary {
            let window = self.selected_timeline_fx_param_window(kind);
            self.adjust_selected_timeline_fx_parameter(window, delta);
        } else {
            self.adjust_selected_timeline_fx_kind(delta);
        }
    }

    /// Switches the edit focus between the effect kind and its parameters.
    pub fn activate_timeline_context_item(&mut self)
        ensures
            old(self).wf() ==> final(self).wf(),
            fx_field_switched(*old(self), *final(self)),
    {
        if self.page_state.selected_timeline_context.chain_kind().is_some() {
            self.page_state.selected_timeline_fx_field = if self.page_state.selected_timeline_fx_field == TimelineFxField::ParamPrimary {
                TimelineFxField::Kind
            } else {
                TimelineFxField::ParamPrimary
            };
        }
    }

    /// The reverse activate action; with two focus areas it is the same switch.
    pub fn reverse_activate_timeline_context_item(&mut self)
        ensures
            old(self).wf() ==> final(self).wf(),
            fx_field_switched(*old(self), *final(self)),
    {
        self.activate_timeline_context_item();
    }
}

/// Effect of `toggle_selected_timeline_fx_enabled`: the effect in the selected slot of the
/// addressed rack flips between enabled and bypassed.
pub open spec fn fx_enabled_toggled(a: App, b: App) -> bool {
    &&& b.page_state == a.page_state
    &&& match (a.page_state.selected_timeline_context.spec_chain_kind(), a.spec_selected_slot_of_context()) {
        (Some(kind), Some(s)) => {
            &&& fx_frame(a, b, kind)
            &&& b.active().midi_fx.chain(kind) == a.active().midi_fx.chain(kind).update(s as int, toggled(a.chain_of(kind)[s as int]))
            &&& b.active().midi_fx.windows(kind) == a.active().midi_fx.windows(kind)
            &&& b.active().midi_fx.stored_row(kind) == a.active().midi_fx.stored_row(kind)
        },
        _ => unchanged(a, b),
    }
}

/// Effect of `adjust_selected_timeline_fx_kind`: the selected slot steps to the next or previous
/// effect kind, an empty slot receives its first effect, and the slot's window starts over.
pub open spec fn fx_kind_adjusted(a: App, b: App, delta: i32) -> bool {
    &&& b.page_state == a.page_state
    &&& match (a.page_state.selected_timeline_context.spec_chain_kind(), a.spec_selected_slot_of_context()) {
        (Some(kind), Some(s)) => {
            &&& fx_frame(a, b, kind)
            &&& b.active().midi_fx.chain(kind) == a.active().midi_fx.chain(kind).update(s as int, kind_stepped(a.chain_of(kind)[s as int], delta as int))
            &&& b.active().midi_fx.windows(kind) == reset_window(a.active().midi_fx.windows(kind), s)
            &&& b.active().midi_fx.stored_row(kind) == a.active().midi_fx.stored_row(kind)
        },
        _ => unchanged(a, b),
    }
}

/// Effect of `add_selected_timeline_fx`: an empty selected slot receives the first effect kind.
pub open spec fn fx_added(a: App, b: App) -> bool {
    &&& b.page_state == a.page_state
    &&& match (a.page_state.selected_timeline_context.spec_chain_kind(), a.spec_selected_slot_of_context()) {
        (Some(kind), Some(s)) => if a.chain_of(kind)[s as int] is None {
            &&& fx_frame(a, b, kind)
            &&& b.active().midi_fx.chain(kind) == a.active().midi_fx.chain(kind).update(s as int, spec_fill_empty(1))
            &&& b.active().midi_fx.windows(kind) == reset_window(a.active().midi_fx.windows(kind), s)
            &&& b.active().midi_fx.stored_row(kind) == a.active().midi_fx.stored_row(kind)
        } else {
            unchanged(a, b)
        },
        _ => unchanged(a, b),
    }
}

/// Effect of `delete_selected_timeline_fx`: the selected slot is emptied and its window reset.
pub open spec fn fx_deleted(a: App, b: App) -> bool {
    &&& b.page_state == a.page_state
    &&& match (a.page_state.selected_timeline_context.spec_chain_kind(), a.spec_selected_slot_of_context()) {
        (Some(kind), Some(s)) => {
            &&& fx_frame(a, b, kind)
            &&& b.active().midi_fx.chain(kind) == a.active().midi_fx.chain(kind).update(s as int, None)
            &&& b.active().midi_fx.windows(kind) == reset_window(a.active().midi_fx.windows(kind), s)
            &&& b.active().midi_fx.stored_row(kind) == a.spec_selected_row(kind)
        },
        _ => unchanged(a, b),
    }
}

/// Effect of `adjust_selected_timeline_fx_parameter`: one inline parameter of the selected
/// effect steps by `delta`.
pub open spec fn fx_parameter_adjusted(a: App, b: App, parameter_index: usize, delta: i32) -> bool {
    &&& b.page_state == a.page_state
    &&& match (a.page_state.selected_timeline_context.spec_chain_kind(), a.spec_selected_slot_of_context()) {
        (Some(kind), Some(s)) => {
            &&& fx_frame(a, b, kind)
            &&& b.active().midi_fx.chain(kind) == a.active().midi_fx.chain(kind).update(s as int,
                parameter_stepped(a.chain_of(kind)[s as int], parameter_index as nat, delta as int, a.project.tracks@.len()))
            &&& b.active().midi_fx.windows(kind) == a.active().midi_fx.windows(kind)
            &&& b.active().midi_fx.stored_row(kind) == a.active().midi_fx.stored_row(kind)
        },
        _ => unchanged(a, b),
    }
}

/// Effect of `scroll_selected_timeline_fx_parameter_window`: the parameter window of the selected
/// effect moves by `delta`, wrapping around its parameters.
pub open spec fn fx_window_scrolled(a: App, b: App, delta: i32) -> bool {
    &&& b.page_state == a.page_state
    &&& match a.page_state.selected_timeline_context.spec_chain_kind() {
        Some(kind) => match a.spec_selected_content(kind) {
            Some(slot) => {
                let s = a.spec_selected_slot(kind)->0;
                let next = ((a.spec_selected_window(kind) + delta) % (slot.effect.spec_param_count() as int)) as usize;
                &&& fx_frame(a, b, kind)
                &&& b.active().midi_fx.chain(kind) == a.active().midi_fx.chain(kind)
                &&& b.active().midi_fx.stored_row(kind) == a.active().midi_fx.stored_row(kind)
                &&& b.active().midi_fx.windows(kind) == (if s < a.active().midi_fx.windows(kind).len() {
                    a.active().midi_fx.windows(kind).update(s as int, next)
                } else {
                    a.active().midi_fx.windows(kind)
                })
            },
            None => unchanged(a, b),
        },
        None => unchanged(a, b),
    }
}

/// Effect of `select_timeline_fx_row`: the selected row moves by `delta`, wrapping, or the
/// parameter window moves while parameters are edited.
pub open spec fn fx_row_selected(a: App, b: App, delta: i32) -> bool {
    &&& b.page_state == a.page_state
    &&& match a.page_state.selected_timeline_context.spec_chain_kind() {
        Some(kind) => if a.page_state.selected_timeline_fx_field == TimelineFxField::ParamPrimary {
            match a.spec_selected_content(kind) {
                Some(slot) => {
                    let s = a.spec_selected_slot(kind)->0;
                    let next = ((a.spec_selected_window(kind) + delta) % (slot.effect.spec_param_count() as int)) as usize;
                    &&& fx_frame(a, b, kind)
                    &&& b.active().midi_fx.chain(kind) == a.active().midi_fx.chain(kind)
                    &&& b.active().midi_fx.stored_row(kind) == a.active().midi_fx.stored_row(kind)
                    &&& b.active().midi_fx.windows(kind) == (if s < a.active().midi_fx.windows(kind).len() {
                        a.active().midi_fx.windows(kind).update(s as int, next)
                    } else {
                        a.active().midi_fx.windows(kind)
                    })
                },
                None => unchanged(a, b),
            }
        } else if a.shown_rows(kind) > 0 {
            &&& fx_frame(a, b, kind)
            &&& b.active().midi_fx.chain(kind) == a.active().midi_fx.chain(kind)
            &&& b.active().midi_fx.windows(kind) == a.active().midi_fx.windows(kind)
            &&& b.active().midi_fx.stored_row(kind) == (a.spec_selected_row(kind) + delta) % (a.shown_rows(kind) as int)
        } else {
            unchanged(a, b)
        },
        None => unchanged(a, b),
    }
}

/// Effect of `adjust_timeline_context`: the field action of the selected slot.
pub open spec fn fx_context_adjusted(a: App, b: App, delta: i32) -> bool {
    &&& b.page_state == a.page_state
    &&& match (a.page_state.selected_timeline_context.spec_chain_kind(), a.spec_selected_slot_of_context()) {
        (Some(kind), Some(s)) => {
            &&& fx_frame(a, b, kind)
            &&& b.active().midi_fx.stored_row(kind) == a.active().midi_fx.stored_row(kind)
            &&& if a.page_state.selected_timeline_fx_field == TimelineFxField::ParamPrimary {
                &&& b.active().midi_fx.chain(kind) == a.active().midi_fx.chain(kind).update(s as int,
                    parameter_stepped(a.chain_of(kind)[s as int], a.spec_selected_window(kind), delta as int, a.project.tracks@.len()))
                &&& b.active().midi_fx.windows(kind) == a.active().midi_fx.windows(kind)
            } else {
                &&& b.active().midi_fx.chain(kind) == a.active().midi_fx.chain(kind).update(s as int,
                    kind_stepped(a.chain_of(kind)[s as int], delta as int))
                &&& b.active().midi_fx.windows(kind) == reset_window(a.active().midi_fx.windows(kind), s)
            }
        },
        _ => unchanged(a, b),
    }
}

/// Effect of `move_selected_timeline_fx`: the selected effect swaps places with the slot one row
/// towards `delta`, and the selection follows it.
pub open spec fn fx_moved(a: App, b: App, delta: i32) -> bool {
    &&& b.page_state == a.page_state
    &&& match (a.page_state.selected_timeline_context.spec_chain_kind(), a.spec_selected_slot_of_context()) {
        (Some(kind), Some(s)) => {
            let t = move_target(s, delta as int, a.shown_rows(kind));
            let chain = a.active().midi_fx.chain(kind);
            let windows = a.active().midi_fx.windows(kind);
            if t == s || chain[s as int] is None {
                unchanged(a, b)
            } else {
                &&& fx_frame(a, b, kind)
                &&& b.active().midi_fx.chain(kind) == chain.update(s as int, chain[t]).update(t, chain[s as int])
                &&& b.active().midi_fx.windows(kind) == windows.update(s as int, windows[t]).update(t, windows[s as int])
                &&& b.active().midi_fx.stored_row(kind) == t
                &&& b.spec_selected_slot(kind) == Some(t as nat)
            }
        },
        _ => unchanged(a, b),
    }
}

/// Effect of `activate_timeline_context_item`: in an FX context the edit focus switches between
/// the effect kind and its parameters; nothing else changes.
pub open spec fn fx_field_switched(a: App, b: App) -> bool {
    &&& same_app_fields(a, b)
    &&& b.project == a.project
    &&& b.page_state.current_page == a.page_state.current_page
    &&& b.page_state.selected_timeline_context == a.page_state.selected_timeline_context
    &&& b.page_state.selected_timeline_fx_field == (
        if a.page_state.selected_timeline_context.spec_chain_kind() is None {
            a.page_state.selected_timeline_fx_field
        } else if a.page_state.selected_timeline_fx_field == TimelineFxField::ParamPrimary {
            TimelineFxField::Kind
        } else {
            TimelineFxField::ParamPrimary
        })
}

/// A rack edit that keeps the rack's length and its number of parameter windows keeps the app
/// well formed.
pub proof fn lemma_rack_edit_keeps_wf(a: App, b: App, kind: MidiFxChainKind)
    requires
        a.wf(),
        fx_frame(a, b, kind),
        a.has_active() ==> b.active().midi_fx.chain(kind).len() == a.active().midi_fx.chain(kind).len(),
        a.has_active() ==> b.active().midi_fx.windows(kind).len() == a.active().midi_fx.windows(kind).len(),
    ensures
        b.wf(),
{
    assert forall|i: int| 0 <= i < b.project.tracks@.len() implies (#[trigger] b.project.tracks@[i]).wf() by {
        assert(a.project.tracks@[i].wf());
    }
}
/// Effect of `set_selected_timeline_fx_param_window`: the window of the selected slot of rack
/// `kind` becomes `start`.
pub open spec fn fx_window_set(a: App, b: App, kind: MidiFxChainKind, start: usize) -> bool {
    &&& fx_frame(a, b, kind)
    &&& b.page_state == a.page_state
    &&& a.has_active() ==> b.active().midi_fx.chain(kind) == a.active().midi_fx.chain(kind)
    &&& a.has_active() ==> b.active().midi_fx.stored_row(kind) == a.active().midi_fx.stored_row(kind)
    &&& a.has_active() ==> b.active().midi_fx.windows(kind) == (match a.spec_selected_slot(kind) {
        Some(s) => if s < a.active().midi_fx.windows(kind).len() {
            a.active().midi_fx.windows(kind).update(s as int, start)
        } else {
            a.active().midi_fx.windows(kind)
        },
        None => a.active().midi_fx.windows(kind),
    })
}

} // verus!
