//! Recording on the timeline: where a pass starts and ends, which tracks record, and how
//! committed clips are paged through in the stacked view.
use vstd::prelude::*;
use crate::app::App;
use crate::fx_rack::same_app_fields;
use crate::project::{Track, Transport, take_committed};
use crate::timeline::{LoopRegion, RecordContext, RecordingTake};

verus! {

impl App {
    /// The loop a pass on `track` records into: the track loop when it is on, else the song
    /// loop when that is on. Track loops wrap on the absolute transport clock, the song loop
    /// at its own start.
    pub open spec fn spec_record_context(self, track: Track) -> Option<RecordContext> {
        if track.state.loop_enabled {
            Some(RecordContext {
                range: track.loop_region,
                wrap_basis_ticks: 0,
                extend_clip_on_wrap: self.project.transport.loop_recording_extends_clip,
            })
        } else if self.project.transport.loop_enabled {
            Some(RecordContext {
                range: self.project.loop_region,
                wrap_basis_ticks: self.project.loop_region.start_ticks,
                extend_clip_on_wrap: self.project.transport.loop_recording_extends_clip,
            })
        } else {
            None
        }
    }

    /// The audible position on `track`: inside the track loop when it is on.
    pub open spec fn spec_effective_track_playhead(self, track: Track) -> u64 {
        if track.state.loop_enabled && track.loop_region.length_ticks > 0 {
            (track.loop_region.start_ticks + self.transport_ticks % track.loop_region.length_ticks) as u64
        } else {
            self.playhead_ticks
        }
    }

    pub open spec fn spec_record_head_ticks(self, track: Track) -> u64 {
        if track.state.loop_enabled {
            self.spec_effective_track_playhead(track)
        } else {
            self.playhead_ticks
        }
    }

    /// The clock a pass on `track` is captured on: the transport clock inside a loop, the
    /// record head otherwise.
    pub open spec fn spec_record_capture_ticks(self, track: Track) -> u64 {
        if self.spec_record_context(track) is Some {
            self.transport_ticks
        } else {
            self.spec_record_head_ticks(track)
        }
    }

    /// Some track is armed.
    pub open spec fn any_armed(self) -> bool {
        exists|i: int| 0 <= i < self.project.tracks@.len() && (#[trigger] self.project.tracks@[i]).state.armed
    }

    /// Track `i` records when recording starts: the armed tracks, or the active track when
    /// none is armed.
    pub open spec fn is_record_target(self, i: int) -> bool {
        if self.any_armed() {
            0 <= i < self.project.tracks@.len() && self.project.tracks@[i].state.armed
        } else {
            i == self.project.active_track_index
        }
    }

    /// The loop `track` records into.
    pub fn record_context(&self, track: &Track) -> (r: Option<RecordContext>)
        ensures
            r == self.spec_record_context(*track),
    {
        if track.state.loop_enabled {
            Some(RecordContext {
                range: track.loop_region,
                wrap_basis_ticks: 0,
                extend_clip_on_wrap: self.project.transport.loop_recording_extends_clip,
            })
        } else if self.project.transport.loop_enabled {
            Some(RecordContext {
                range: self.project.loop_region,
                wrap_basis_ticks: self.project.loop_region.start_ticks,
                extend_clip_on_wrap: self.project.transport.loop_recording_extends_clip,
            })
        } else {
            None
        }
    }

    /// The loop shown in the detail column of `track`: the loop it records into, or its own
    /// loop when nothing loops.
    pub fn detail_loop_range(&self, track: &Track) -> (r: LoopRegion)
        ensures
            r == (match self.spec_record_context(*track) {
                Some(ctx) => ctx.range,
                None => track.loop_region,
            }),
    {
        match self.record_context(track) {
            Some(ctx) => ctx.range,
            None => track.loop_region,
        }
    }

    /// The playhead position heard on `track`.
    pub fn effective_track_playhead(&self, track: &Track) -> (r: u64)
        requires
            track.loop_region.wf(),
        ensures
            r == self.spec_effective_track_playhead(*track),
            track.state.loop_enabled && track.loop_region.length_ticks > 0 ==>
                track.loop_region.start_ticks <= r < track.loop_region.spec_end(),
    {
        if track.state.loop_enabled && track.loop_region.length_ticks > 0 {
            track.loop_region.start_ticks + self.transport_ticks % track.loop_region.length_ticks
        } else {
            self.playhead_ticks
        }
    }

    /// Where the record head of `track` is.
    pub fn record_head_ticks(&self, track: &Track) -> (r: u64)
        requires
            track.loop_region.wf(),
        ensures
            r == self.spec_record_head_ticks(*track),
    {
        if track.state.loop_enabled {
            self.effective_track_playhead(track)
        } else {
            self.playhead_ticks
        }
    }

    /// The position a pass on `track` starts or ends at when the record button is pressed now.
    pub fn record_capture_ticks(&self, track: &Track) -> (r: u64)
        requires
            track.loop_region.wf(),
        ensures
            r == self.spec_record_capture_ticks(*track),
    {
        if self.record_context(track).is_some() {
            self.transport_ticks
        } else {
            self.record_head_ticks(track)
        }
    }

    /// The time stamp given to live input on `track`: the capture position while playing,
    /// the free-running live FX clock while stopped.
    pub fn live_input_event_ticks(&self, track: &Track) -> (r: u64)
        requires
            track.loop_region.wf(),
        ensures
            r == (if self.project.transport.playing { self.spec_record_capture_ticks(*track) } else { self.live_fx_ticks }),
    {
        if self.project.transport.playing {
            self.record_capture_ticks(track)
        } else {
            self.live_fx_ticks
        }
    }

    /// The tracks that start recording, in track order.
    pub fn record_target_indices(&self) -> (r: Vec<usize>)
        ensures
            r@.len() > 0,
            forall|k: int| 0 <= k < r@.len() ==> self.is_record_target(r@[k] as int),
            forall|k: int, l: int| 0 <= k < l < r@.len() ==> r@[k] < r@[l],
            forall|i: usize| self.is_record_target(i as int) ==> r@.contains(i),
    {
        let mut armed: Vec<usize> = Vec::new();
        let mut i: usize = 0;
        while i < self.project.tracks.len()
            invariant
                i <= self.project.tracks@.len(),
                forall|k: int| 0 <= k < armed@.len() ==> armed@[k] < i && (#[trigger] self.project.tracks@[armed@[k] as int]).state.armed,
                forall|k: int, l: int| 0 <= k < l < armed@.len() ==> armed@[k] < armed@[l],
                forall|j: usize| j < i && (#[trigger] self.project.tracks@[j as int]).state.armed ==> armed@.contains(j),
            decreases self.project.tracks@.len() - i,
        {
            if self.project.tracks[i].state.armed {
                let ghost before = armed@;
                armed.push(i);
                proof {
                    assert(armed@ == before.push(i));
                    assert(armed@[armed@.len() - 1] == i);
                    assert forall|k: int, l: int| 0 <= k < l < armed@.len() implies armed@[k] < armed@[l] by {
                        if l == armed@.len() - 1 {
                            assert(armed@[k] == before[k]);
                            assert(self.project.tracks@[before[k] as int].state.armed);
                        }
                    }
                    assert forall|j: usize| j < i + 1 && (#[trigger] self.project.tracks@[j as int]).state.armed implies armed@.contains(j) by {
                        if j == i {
                            assert(armed@[armed@.len() - 1] == j);
                        } else {
                            assert(before.contains(j));
                            let a = choose|a: int| 0 <= a < before.len() && before[a] == j;
                            assert(armed@[a] == j);
                        }
                    }
                }
            }
            i = i + 1;
        }
        if armed.len() == 0 {
            proof {
                if self.any_armed() {
                    let j = choose|j: int| 0 <= j < self.project.tracks@.len() && (#[trigger] self.project.tracks@[j]).state.armed;
                    assert(self.project.tracks@[(j as usize) as int].state.armed);
                    assert(armed@.contains(j as usize));
                }
            }
            let r = vec![self.project.active_track_index];
            assert(r@[0] == self.project.active_track_index);
            r
        } else {
            proof {
                assert(self.project.tracks@[armed@[0] as int].state.armed);
                assert(self.any_armed());
            }
            armed
        }
    }
}

/// `targets[..upto]` holds `i`.
pub open spec fn handled(targets: Seq<usize>, upto: int, i: int) -> bool {
    exists|k: int| 0 <= k < upto && targets[k] as int == i
}

/// The track after a pass that started at `pressed_at`.
pub open spec fn armed_for_pass(track: Track, pressed_at: u64) -> Track {
    Track { active_take: Some(RecordingTake { start_ticks: pressed_at, release_ticks: None }), ..track }
}

/// What ending the pass in progress on `before` at `release` makes of it: the pass is
/// released there and committed as `take_committed` says, and the track stays well formed.
pub open spec fn pass_finished(before: Track, after: Track, transport: Transport, release: u64, context: Option<RecordContext>) -> bool {
    &&& after.wf()
    &&& after.active_take is None
    &&& before.active_take matches Some(take) ==> take_committed(
        Track { active_take: None, ..before },
        after,
        transport,
        RecordingTake { start_ticks: take.start_ticks, release_ticks: Some(release) },
        context,
    )
}

/// Effect of `begin_recording`: every record target starts a pass at its capture position and
/// the transport plays and records; nothing else changes.
pub open spec fn recording_begun(a: App, b: App) -> bool {
    &&& same_app_fields(a, b)
    &&& b.page_state == a.page_state
    &&& b.project.active_track_index == a.project.active_track_index
    &&& b.project.loop_region == a.project.loop_region
    &&& b.project.transport == (Transport { recording: true, playing: true, ..a.project.transport })
    &&& b.project.tracks@.len() == a.project.tracks@.len()
    &&& forall|i: int| 0 <= i < a.project.tracks@.len() ==> #[trigger] b.project.tracks@[i] == (
        if a.is_record_target(i) {
            armed_for_pass(a.project.tracks@[i], a.spec_record_capture_ticks(a.project.tracks@[i]))
        } else {
            a.project.tracks@[i]
        })
}

/// Effect of `finish_recording`: every pass in progress ends at its track's capture position
/// and is committed, and the transport stops recording; nothing else changes.
pub open spec fn recording_finished(a: App, b: App) -> bool {
    &&& same_app_fields(a, b)
    &&& b.page_state == a.page_state
    &&& b.project.active_track_index == a.project.active_track_index
    &&& b.project.loop_region == a.project.loop_region
    &&& b.project.transport == (Transport { recording: false, ..a.project.transport })
    &&& b.project.tracks@.len() == a.project.tracks@.len()
    &&& forall|i: int| 0 <= i < a.project.tracks@.len() ==> {
        let before = a.project.tracks@[i];
        let after = #[trigger] b.project.tracks@[i];
        if before.active_take is Some {
            pass_finished(before, after, a.project.transport, a.spec_record_capture_ticks(before), a.spec_record_context(before))
        } else {
            after == before
        }
    }
}

impl App {
    /// Starts a pass on every record target, captured at its own capture position, and
    /// starts the transport recording.
    pub fn begin_recording(&mut self)
        requires
            old(self).wf(),
        ensures
            final(self).wf(),
            recording_begun(*old(self), *final(self)),
    {
        let targets = self.record_target_indices();
        let ghost start = *self;
        let mut k: usize = 0;
        while k < targets.len()
            invariant
                k <= targets@.len(),
                start == *old(self),
                start.wf(),
                forall|a: int| 0 <= a < targets@.len() ==> start.is_record_target(targets@[a] as int),
                forall|a: int, b: int| 0 <= a < b < targets@.len() ==> targets@[a] < targets@[b],
                same_app_fields(start, *self),
                self.page_state == start.page_state,
                self.project.active_track_index == start.project.active_track_index,
                self.project.loop_region == start.project.loop_region,
                self.project.transport == start.project.transport,
                self.project.tracks@.len() == start.project.tracks@.len(),
                forall|i: int| 0 <= i < start.project.tracks@.len() ==> #[trigger] self.project.tracks@[i] == (
                    if handled(targets@, k as int, i) {
                        armed_for_pass(start.project.tracks@[i], start.spec_record_capture_ticks(start.project.tracks@[i]))
                    } else {
                        start.project.tracks@[i]
                    }),
            decreases targets@.len() - k,
        {
            let index = targets[k];
            if index < self.project.tracks.len() {
                proof {
                    if handled(targets@, k as int, index as int) {
                        let a = choose|a: int| 0 <= a < k && targets@[a] as int == index as int;
                        assert(targets@[a] < targets@[k as int]);
                    }
                    assert(start.project.tracks@[index as int].wf());
                }
                let pressed_at = self.record_capture_ticks(&self.project.tracks[index]);
                self.project.tracks[index].begin_recording(pressed_at);
            }
            proof {
                assert forall|i: int| 0 <= i < start.project.tracks@.len() implies #[trigger] self.project.tracks@[i] == (
                    if handled(targets@, k + 1, i) {
                        armed_for_pass(start.project.tracks@[i], start.spec_record_capture_ticks(start.project.tracks@[i]))
                    } else {
                        start.project.tracks@[i]
                    }) by {
                    if i == index as int {
                        assert(targets@[k as int] as int == i);
                        assert(handled(targets@, k + 1, i));
                    } else {
                        if handled(targets@, k + 1, i) {
                            let a = choose|a: int| 0 <= a < k + 1 && targets@[a] as int == i;
                            assert(a != k);
                            assert(0 <= a < k && targets@[a] as int == i);
                            assert(handled(targets@, k as int, i));
                        }
                        if handled(targets@, k as int, i) {
                            let a = choose|a: int| 0 <= a < k && targets@[a] as int == i;
                            assert(0 <= a < k + 1 && targets@[a] as int == i);
                            assert(handled(targets@, k + 1, i));
                        }
                    }
                }
            }
            k = k + 1;
        }
        self.project.transport.recording = true;
        self.project.transport.playing = true;
        proof {
            assert forall|i: int| 0 <= i < start.project.tracks@.len() implies handled(targets@, targets@.len() as int, i) == start.is_record_target(i) by {
                assert(start.project.tracks.len() == start.project.tracks@.len());
                if start.is_record_target(i) {
                    assert(start.is_record_target((i as usize) as int));
                    assert(targets@.contains(i as usize));
                    let a = choose|a: int| 0 <= a < targets@.len() && targets@[a] == i as usize;
                    assert(targets@[a] as int == i);
                }
                if handled(targets@, targets@.len() as int, i) {
                    let a = choose|a: int| 0 <= a < targets@.len() && targets@[a] as int == i;
                    assert(start.is_record_target(targets@[a] as int));
                }
            }
            assert forall|i: int| 0 <= i < self.project.tracks@.len() implies (#[trigger] self.project.tracks@[i]).wf() by {
                assert(start.project.tracks@[i].wf());
            }
        }
    }

    /// Ends the pass in progress on every track at that track's capture position, inside
    /// the loop it records into, and stops the transport recording.
    pub fn finish_recording(&mut self)
        requires
            old(self).wf(),
        ensures
            final(self).wf(),
            recording_finished(*old(self), *final(self)),
    {
        let transport = self.project.transport;
        let ghost start = *self;
        let track_count = self.project.tracks.len();
        let mut i: usize = 0;
        while i < track_count
            invariant
                i <= track_count,
                track_count == start.project.tracks@.len(),
                start == *old(self),
                start.wf(),
                transport == start.project.transport,
                same_app_fields(start, *self),
                self.page_state == start.page_state,
                self.project.active_track_index == start.project.active_track_index,
                self.project.loop_region == start.project.loop_region,
                self.project.transport == start.project.transport,
                self.project.tracks@.len() == track_count,
                forall|j: int| i <= j < track_count ==> self.project.tracks@[j] == start.project.tracks@[j],
                forall|j: int| 0 <= j < i ==> {
                    let before = start.project.tracks@[j];
                    let after = #[trigger] self.project.tracks@[j];
                    if before.active_take is Some {
                        pass_finished(before, after, start.project.transport, start.spec_record_capture_ticks(before), start.spec_record_context(before))
                    } else {
                        after == before
                    }
                },
            decreases track_count - i,
        {
            proof {
                assert(start.project.tracks@[i as int].wf());
            }
            let release_ticks = self.record_capture_ticks(&self.project.tracks[i]);
            let record_context = self.record_context(&self.project.tracks[i]);
            if self.project.tracks[i].active_take.is_some() {
                self.project.tracks[i].finish_recording(transport, release_ticks, record_context);
            }
            i = i + 1;
        }
        self.project.transport.recording = false;
        proof {
            assert forall|j: int| 0 <= j < self.project.tracks@.len() implies (#[trigger] self.project.tracks@[j]).wf() by {
                assert(start.project.tracks@[j].wf());
            }
        }
    }
}

} // verus!
