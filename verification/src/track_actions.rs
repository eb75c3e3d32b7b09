//! Actions on the active track, the transport and the timeline selection.
use vstd::prelude::*;
use crate::app::{App, TimelineContext};
use crate::fx_rack::{fx_enabled_toggled, same_app_fields, unchanged};
use crate::project::{
    Track, TrackState, Transport, clip_deleted, clip_mute_toggled, clip_position, next_clip_selected,
    previous_clip_selected,
};
use crate::recording::{recording_begun, recording_finished};

verus! {

/// The switches of a track that the track actions flip.
#[derive(Debug, Clone, Copy, PartialEq, Eq, Structural)]
pub enum TrackSwitch {
    Armed,
    Muted,
    Soloed,
    LoopEnabled,
    Passthrough,
}

/// `state` with `switch` flipped.
pub open spec fn flipped(state: TrackState, switch: TrackSwitch) -> TrackState {
    match switch {
        TrackSwitch::Armed => TrackState { armed: !state.armed, ..state },
        TrackSwitch::Muted => TrackState { muted: !state.muted, ..state },
        TrackSwitch::Soloed => TrackState { soloed: !state.soloed, ..state },
        TrackSwitch::LoopEnabled => TrackState { loop_enabled: !state.loop_enabled, ..state },
        TrackSwitch::Passthrough => TrackState { passthrough: !state.passthrough, ..state },
    }
}

/// Only the active track may differ, and it becomes `track`.
pub open spec fn active_track_replaced(a: App, b: App, track: Track) -> bool {
    &&& same_app_fields(a, b)
    &&& b.page_state == a.page_state
    &&& b.project.active_track_index == a.project.active_track_index
    &&& b.project.transport == a.project.transport
    &&& b.project.loop_region == a.project.loop_region
    &&& b.project.tracks@ == a.project.tracks@.update(a.project.active_track_index as int, track)
}

/// Only the transport may differ, and it becomes `transport`.
pub open spec fn transport_replaced(a: App, b: App, transport: Transport) -> bool {
    &&& same_app_fields(a, b)
    &&& b.page_state == a.page_state
    &&& b.project.active_track_index == a.project.active_track_index
    &&& b.project.loop_region == a.project.loop_region
    &&& b.project.tracks@ == a.project.tracks@
    &&& b.project.transport == transport
}

/// Effect of a clip action on the active track: `effect` relates the active track before and
/// after, and no other part of the app changes; without an active track nothing changes.
pub open spec fn active_clip_action(a: App, b: App, effect: spec_fn(Track, Track) -> bool) -> bool {
    if a.has_active() {
        active_track_replaced(a, b, b.active()) && effect(a.active(), b.active())
    } else {
        unchanged(a, b)
    }
}

/// Effect of `toggle_current_track_switch`.
pub open spec fn switch_toggled(a: App, b: App, switch: TrackSwitch) -> bool {
    if a.has_active() {
        active_track_replaced(a, b, Track { state: flipped(a.active().state, switch), ..a.active() })
    } else {
        unchanged(a, b)
    }
}

/// Effect of `select_recording_clip`: the clip becomes selected when the active track has it.
pub open spec fn clip_selected(a: App, b: App, clip_id: u64) -> bool {
    if a.has_active() && clip_position(a.active().recording_clips@, clip_id) is Some {
        active_track_replaced(a, b, Track { selected_recording_clip_id: Some(clip_id), ..a.active() })
    } else {
        unchanged(a, b)
    }
}

/// Effect of `toggle_selected_recording_clip_mute`: in an FX context the selected effect is
/// switched on or off; otherwise the selected clip of the active track is muted or unmuted.
pub open spec fn clip_or_fx_mute_toggled(a: App, b: App) -> bool {
    if a.page_state.selected_timeline_context.spec_chain_kind() is Some {
        fx_enabled_toggled(a, b)
    } else {
        active_clip_action(a, b, |x: Track, y: Track| clip_mute_toggled(x, y))
    }
}

/// Effect of `toggle_recording`.
pub open spec fn recording_toggled(a: App, b: App) -> bool {
    if a.project.transport.recording { recording_finished(a, b) } else { recording_begun(a, b) }
}

/// Effect of `toggle_playback`: stopping ends any recording first; starting only starts.
pub open spec fn playback_toggled(a: App, b: App) -> bool {
    if !a.project.transport.playing {
        transport_replaced(a, b, Transport { playing: true, ..a.project.transport })
    } else if !a.project.transport.recording {
        transport_replaced(a, b, Transport { playing: false, ..a.project.transport })
    } else {
        exists|mid: App| #[trigger] recording_finished(a, mid) && transport_replaced(mid, b, Transport { playing: false, ..mid.project.transport })
    }
}

/// Order of the timeline contexts from top to bottom.
pub open spec fn context_rank(c: TimelineContext) -> int {
    match c {
        TimelineContext::InputFx => 0,
        TimelineContext::TrackTimeline => 1,
        TimelineContext::OutputFx => 2,
    }
}

pub open spec fn context_at(rank: int) -> TimelineContext {
    if rank <= 0 { TimelineContext::InputFx } else if rank == 1 { TimelineContext::TrackTimeline } else { TimelineContext::OutputFx }
}

/// Effect of `select_timeline_context`: the context one step up or down, stopping at the
/// input and output racks.
pub open spec fn context_selected(a: App, b: App, forward: bool) -> bool {
    &&& same_app_fields(a, b)
    &&& b.project == a.project
    &&& b.page_state.current_page == a.page_state.current_page
    &&& b.page_state.selected_timeline_fx_field == a.page_state.selected_timeline_fx_field
    &&& b.page_state.selected_timeline_context == context_at(
        if forward { context_rank(a.page_state.selected_timeline_context) + 1 } else { context_rank(a.page_state.selected_timeline_context) - 1 })
}

impl App {
    /// Flips one switch of the active track.
    pub fn toggle_current_track_switch(&mut self, switch: TrackSwitch)
        requires
            old(self).wf(),
        ensures
            final(self).wf(),
            switch_toggled(*old(self), *final(self), switch),
    {
        let idx = self.project.active_track_index;
        if idx >= self.project.tracks.len() {
            return;
        }
        let state = self.project.tracks[idx].state;
        let next = match switch {
            TrackSwitch::Armed => TrackState { armed: !state.armed, ..state },
            TrackSwitch::Muted => TrackState { muted: !state.muted, ..state },
            TrackSwitch::Soloed => TrackState { soloed: !state.soloed, ..state },
            TrackSwitch::LoopEnabled => TrackState { loop_enabled: !state.loop_enabled, ..state },
            TrackSwitch::Passthrough => TrackState { passthrough: !state.passthrough, ..state },
        };
        self.project.tracks[idx].state = next;
        proof {
            assert forall|i: int| 0 <= i < self.project.tracks@.len() implies (#[trigger] self.project.tracks@[i]).wf() by {
                assert(old(self).project.tracks@[i].wf());
            }
        }
    }

    /// Switches the active track between overlaid and stacked clips.
    pub fn toggle_current_track_recording_view(&mut self)
        requires
            old(self).wf(),
        ensures
            final(self).wf(),
            old(self).has_active() ==> active_track_replaced(*old(self), *final(self), Track {
                recording_view: if old(self).active().recording_view == crate::project::RecordingView::Overlay {
                    crate::project::RecordingView::Stacked
                } else {
                    crate::project::RecordingView::Overlay
                },
                ..old(self).active()
            }),
            !old(self).has_active() ==> unchanged(*old(self), *final(self)),
    {
        let idx = self.project.active_track_index;
        if idx >= self.project.tracks.len() {
            return;
        }
        self.project.tracks[idx].toggle_recording_view();
        proof {
            assert forall|i: int| 0 <= i < self.project.tracks@.len() implies (#[trigger] self.project.tracks@[i]).wf() by {
                assert(old(self).project.tracks@[i].wf());
            }
        }
    }

    /// Selects the committed clip before the selected one on the active track.
    pub fn select_previous_recording_clip(&mut self)
        requires
            old(self).wf(),
        ensures
            final(self).wf(),
            active_clip_action(*old(self), *final(self), |x: Track, y: Track| previous_clip_selected(x, y)),
    {
        let idx = self.project.active_track_index;
        if idx >= self.project.tracks.len() {
            return;
        }
        proof { assert(self.project.tracks@[idx as int].wf()); }
        self.project.tracks[idx].select_previous_recording_clip();
        proof { self.lemma_active_edit_keeps_wf(*old(self)); }
    }

    /// Selects the committed clip after the selected one on the active track.
    pub fn select_next_recording_clip(&mut self)
        requires
            old(self).wf(),
        ensures
            final(self).wf(),
            active_clip_action(*old(self), *final(self), |x: Track, y: Track| next_clip_selected(x, y)),
    {
        let idx = self.project.active_track_index;
        if idx >= self.project.tracks.len() {
            return;
        }
        proof { assert(self.project.tracks@[idx as int].wf()); }
        self.project.tracks[idx].select_next_recording_clip();
        proof { self.lemma_active_edit_keeps_wf(*old(self)); }
    }

    /// Selects the clip with identifier `clip_id` on the active track, if it has one.
    pub fn select_recording_clip(&mut self, clip_id: u64)
        requires
            old(self).wf(),
        ensures
            final(self).wf(),
            clip_selected(*old(self), *final(self), clip_id),
    {
        let idx = self.project.active_track_index;
        if idx >= self.project.tracks.len() {
            return;
        }
        match crate::clip_align::clip_index(&self.project.tracks[idx], clip_id) {
            Some(i) => {
                proof {
                    assert(exists|k: int| 0 <= k < self.project.tracks@[idx as int].recording_clips@.len()
                        && self.project.tracks@[idx as int].recording_clips@[k].id == clip_id);
                }
                self.project.tracks[idx].selected_recording_clip_id = Some(clip_id);
                proof {
                    assert forall|j: int| 0 <= j < self.project.tracks@.len() implies (#[trigger] self.project.tracks@[j]).wf() by {
                        assert(old(self).project.tracks@[j].wf());
                    }
                }
            },
            None => {},
        }
    }

    /// Shift+M: switches the selected effect on or off in an FX context, and otherwise mutes
    /// or unmutes the selected clip of the active track.
    pub fn toggle_selected_recording_clip_mute(&mut self)
        requires
            old(self).wf(),
        ensures
            final(self).wf(),
            clip_or_fx_mute_toggled(*old(self), *final(self)),
    {
        if self.page_state.selected_timeline_context.chain_kind().is_some() {
            self.toggle_selected_timeline_fx_enabled();
            return;
        }
        let idx = self.project.active_track_index;
        if idx >= self.project.tracks.len() {
            return;
        }
        proof { assert(self.project.tracks@[idx as int].wf()); }
        self.project.tracks[idx].toggle_selected_recording_clip_mute();
        proof { self.lemma_active_edit_keeps_wf(*old(self)); }
    }

    /// Deletes the selected clip of the active track.
    pub fn delete_selected_recording_clip(&mut self)
        requires
            old(self).wf(),
        ensures
            final(self).wf(),
            active_clip_action(*old(self), *final(self), |x: Track, y: Track| clip_deleted(x, y)),
    {
        let idx = self.project.active_track_index;
        if idx >= self.project.tracks.len() {
            return;
        }
        proof { assert(self.project.tracks@[idx as int].wf()); }
        self.project.tracks[idx].delete_selected_recording_clip();
        proof { self.lemma_active_edit_keeps_wf(*old(self)); }
    }

    /// Replacing the active track by a well-formed one keeps the app well formed.
    proof fn lemma_active_edit_keeps_wf(self, before: App)
        requires
            before.wf(),
            before.has_active(),
            self.project.tracks@ == before.project.tracks@.update(before.project.active_track_index as int, self.project.tracks@[before.project.active_track_index as int]),
            self.project.tracks@[before.project.active_track_index as int].wf(),
            self.project.loop_region == before.project.loop_region,
        ensures
            self.wf(),
    {
        assert forall|i: int| 0 <= i < self.project.tracks@.len() implies (#[trigger] self.project.tracks@[i]).wf() by {
            assert(before.project.tracks@[i].wf());
        }
    }

    /// Starts recording on the record targets, or ends the passes in progress.
    pub fn toggle_recording(&mut self)
        requires
            old(self).wf(),
        ensures
            final(self).wf(),
            recording_toggled(*old(self), *final(self)),
    {
        if self.project.transport.recording {
            self.finish_recording();
        } else {
            self.begin_recording();
        }
    }

    /// Starts or stops the transport; stopping while recording commits the passes first.
    pub fn toggle_playback(&mut self)
        requires
            old(self).wf(),
        ensures
            final(self).wf(),
            playback_toggled(*old(self), *final(self)),
    {
        if !self.project.transport.playing {
            self.project.transport.playing = true;
            return;
        }
        if self.project.transport.recording {
            self.finish_recording();
            let ghost mid = *self;
            self.project.transport.playing = false;
            assert(transport_replaced(mid, *self, Transport { playing: false, ..mid.project.transport }));
        } else {
            self.project.transport.playing = false;
        }
    }

    /// Moves the timeline context one step up (`forward == false`) or down the track:
    /// input rack, timeline, output rack.
    pub fn select_timeline_context(&mut self, forward: bool)
        ensures
            context_selected(*old(self), *final(self), forward),
    {
        let next = match (self.page_state.selected_timeline_context, forward) {
            (TimelineContext::InputFx, true) => TimelineContext::TrackTimeline,
            (TimelineContext::InputFx, false) => TimelineContext::InputFx,
            (TimelineContext::TrackTimeline, true) => TimelineContext::OutputFx,
            (TimelineContext::TrackTimeline, false) => TimelineContext::InputFx,
            (TimelineContext::OutputFx, true) => TimelineContext::OutputFx,
            (TimelineContext::OutputFx, false) => TimelineContext::TrackTimeline,
        };
        self.page_state.selected_timeline_context = next;
    }
}

} // verus!
