//! Tracks, their recorded content and the transport.
use vstd::prelude::*;
use crate::midi_fx::{MidiFxSlot, MIDI_FX_SLOT_COUNT};
use crate::timeline::{LoopRegion, Region, RecordingTake, RecordContext, record_region, recorded_span, span_start, span_len};

verus! {

/// How committed recording clips of a track are shown.
#[derive(Debug, Clone, Copy, PartialEq, Eq, Structural)]
pub enum RecordingView {
    Overlay,
    Stacked,
}

/// Grid that recording and note edits snap to.
#[derive(Debug, Clone, Copy, PartialEq, Eq, Structural)]
pub enum QuantizeMode {
    Off,
    Sixteenth,
    Eighth,
    Quarter,
}

/// Shared transport state.
#[derive(Debug, Clone, Copy, PartialEq, Eq, Structural)]
pub struct Transport {
    pub playing: bool,
    pub recording: bool,
    pub loop_enabled: bool,
    /// A looped recording that passes the loop end keeps growing from the loop start.
    pub loop_recording_extends_clip: bool,
    pub link_enabled: bool,
    pub tempo_bpm: u16,
    pub ppqn: u32,
    pub quantize: QuantizeMode,
    /// Shared harmony root as a pitch class, 0 = C.
    pub harmony_root: u8,
}

/// Per-track switches.
#[derive(Debug, Clone, Copy, PartialEq, Eq, Structural)]
pub struct TrackState {
    pub armed: bool,
    pub muted: bool,
    pub soloed: bool,
    pub loop_enabled: bool,
    pub passthrough: bool,
}

/// One committed recording pass.
#[derive(Debug, Clone, Copy, PartialEq, Eq, Structural)]
pub struct RecordingClip {
    pub id: u64,
    pub region: Region,
    pub muted: bool,
    pub native_start_ticks: u64,
    pub native_end_ticks: u64,
    pub native_duration_ticks: u64,
    pub native_capture_tempo_bpm: u16,
}

/// A recorded note.
#[derive(Debug, Clone, Copy, PartialEq, Eq, Structural)]
pub struct MidiNote {
    pub pitch: u8,
    pub start_ticks: u64,
    pub length_ticks: u64,
    pub velocity: u8,
    pub recording_clip_id: Option<u64>,
}

impl MidiNote {
    pub fn new_recorded(pitch: u8, start_ticks: u64, length_ticks: u64, velocity: u8, clip_id: u64) -> (r: MidiNote)
        ensures
            r == (MidiNote { pitch, start_ticks, length_ticks, velocity, recording_clip_id: Some(clip_id) }),
    {
        MidiNote { pitch, start_ticks, length_ticks, velocity, recording_clip_id: Some(clip_id) }
    }
}

/// Selection state of the timeline FX racks of one track.
#[derive(Debug, Clone, PartialEq, Eq)]
pub struct TimelineFxUiState {
    pub input_selected_row: usize,
    pub output_selected_row: usize,
    pub input_param_windows: Vec<usize>,
    pub output_param_windows: Vec<usize>,
}

/// The input and output FX racks of a track.
#[derive(Debug, Clone, PartialEq, Eq)]
pub struct TrackMidiFx {
    pub input_fx: Vec<Option<MidiFxSlot>>,
    pub output_fx: Vec<Option<MidiFxSlot>>,
    pub timeline_ui: TimelineFxUiState,
}

impl TrackMidiFx {
    /// Two empty racks of `MIDI_FX_SLOT_COUNT` slots.
    pub fn empty() -> (r: TrackMidiFx)
        ensures
            r.input_fx@ == Seq::new(MIDI_FX_SLOT_COUNT as nat, |i: int| None::<MidiFxSlot>),
            r.output_fx@ == Seq::new(MIDI_FX_SLOT_COUNT as nat, |i: int| None::<MidiFxSlot>),
            r.timeline_ui.input_selected_row == 0,
            r.timeline_ui.output_selected_row == 0,
            r.timeline_ui.input_param_windows@ == Seq::new(MIDI_FX_SLOT_COUNT as nat, |i: int| 0usize),
            r.timeline_ui.output_param_windows@ == Seq::new(MIDI_FX_SLOT_COUNT as nat, |i: int| 0usize),
    {
        let input_fx: Vec<Option<MidiFxSlot>> = vec![None, None, None, None];
        let output_fx: Vec<Option<MidiFxSlot>> = vec![None, None, None, None];
        let input_param_windows: Vec<usize> = vec![0, 0, 0, 0];
        let output_param_windows: Vec<usize> = vec![0, 0, 0, 0];
        assert(input_fx@ =~= Seq::new(4, |i: int| None::<MidiFxSlot>));
        assert(output_fx@ =~= Seq::new(4, |i: int| None::<MidiFxSlot>));
        assert(input_param_windows@ =~= Seq::new(4, |i: int| 0usize));
        assert(output_param_windows@ =~= Seq::new(4, |i: int| 0usize));
        TrackMidiFx {
            input_fx,
            output_fx,
            timeline_ui: TimelineFxUiState { input_selected_row: 0, output_selected_row: 0, input_param_windows, output_param_windows },
        }
    }

    /// Every slot has a parameter-window entry.
    pub open spec fn wf(self) -> bool {
        &&& self.timeline_ui.input_param_windows@.len() == self.input_fx@.len()
        &&& self.timeline_ui.output_param_windows@.len() == self.output_fx@.len()
    }
}

/// A sequencer track.
#[derive(Debug, Clone, PartialEq, Eq)]
pub struct Track {
    pub state: TrackState,
    pub loop_region: LoopRegion,
    pub regions: Vec<Region>,
    pub recording_clips: Vec<RecordingClip>,
    pub midi_notes: Vec<MidiNote>,
    pub selected_recording_clip_id: Option<u64>,
    pub recording_clip_scroll: usize,
    pub recording_view: RecordingView,
    pub active_take: Option<RecordingTake>,
    pub midi_fx: TrackMidiFx,
}

/// Position of the clip with identifier `id`, if there is one.
pub open spec fn clip_position(clips: Seq<RecordingClip>, id: u64) -> Option<int> {
    if exists|i: int| 0 <= i < clips.len() && clips[i].id == id {
        Some(choose|i: int| 0 <= i < clips.len() && clips[i].id == id)
    } else {
        None
    }
}

/// No two clips share an identifier.
pub open spec fn clip_ids_unique(clips: Seq<RecordingClip>) -> bool {
    forall|i: int, j: int| 0 <= i < clips.len() && 0 <= j < clips.len() && i != j ==> clips[i].id != clips[j].id
}

impl Track {
    /// An empty track with the given loop.
    pub fn new(loop_region: LoopRegion) -> (r: Track)
        ensures
            r.loop_region == loop_region,
            r.regions@.len() == 0,
            r.recording_clips@.len() == 0,
            r.midi_notes@.len() == 0,
            r.selected_recording_clip_id is None,
            r.active_take is None,
            r.recording_view == RecordingView::Overlay,
            r.state == (TrackState { armed: false, muted: false, soloed: false, loop_enabled: false, passthrough: false }),
            r.midi_fx.wf(),
            r.midi_fx.input_fx@.len() == MIDI_FX_SLOT_COUNT,
            r.midi_fx.output_fx@.len() == MIDI_FX_SLOT_COUNT,
            r.midi_fx.input_fx@ == Seq::new(MIDI_FX_SLOT_COUNT as nat, |i: int| None::<MidiFxSlot>),
            r.midi_fx.output_fx@ == Seq::new(MIDI_FX_SLOT_COUNT as nat, |i: int| None::<MidiFxSlot>),
            r.midi_fx.timeline_ui.input_selected_row == 0,
            r.midi_fx.timeline_ui.output_selected_row == 0,
            r.midi_fx.timeline_ui.input_param_windows@ == Seq::new(MIDI_FX_SLOT_COUNT as nat, |i: int| 0usize),
            r.midi_fx.timeline_ui.output_param_windows@ == Seq::new(MIDI_FX_SLOT_COUNT as nat, |i: int| 0usize),
            r.recording_clip_scroll == 0,
    {
        Track {
            state: TrackState { armed: false, muted: false, soloed: false, loop_enabled: false, passthrough: false },
            loop_region,
            regions: Vec::new(),
            recording_clips: Vec::new(),
            midi_notes: Vec::new(),
            selected_recording_clip_id: None,
            recording_clip_scroll: 0,
            recording_view: RecordingView::Overlay,
            active_take: None,
            midi_fx: TrackMidiFx::empty(),
        }
    }

    /// Loop fits the tick counter, clip identifiers are unique and racks are consistent.
    pub open spec fn wf(self) -> bool {
        &&& self.loop_region.wf()
        &&& clip_ids_unique(self.recording_clips@)
        &&& self.midi_fx.wf()
    }

    /// Removes all recorded material and any pass in progress.
    pub fn clear_content(&mut self)
        ensures
            final(self).regions@.len() == 0,
            final(self).recording_clips@.len() == 0,
            final(self).midi_notes@.len() == 0,
            final(self).selected_recording_clip_id is None,
            final(self).recording_clip_scroll == 0,
            final(self).active_take is None,
            final(self).state == old(self).state,
            final(self).loop_region == old(self).loop_region,
            final(self).recording_view == old(self).recording_view,
            final(self).midi_fx == old(self).midi_fx,
    {
        self.regions = Vec::new();
        self.recording_clips = Vec::new();
        self.midi_notes = Vec::new();
        self.selected_recording_clip_id = None;
        self.recording_clip_scroll = 0;
        self.active_take = None;
    }

    /// Position of the selected recording clip.
    pub fn selected_recording_clip_index(&self) -> (r: Option<usize>)
        ensures
            r matches Some(i) ==> i < self.recording_clips@.len() && Some(self.recording_clips@[i as int].id) == self.selected_recording_clip_id,
            r is None ==> (self.selected_recording_clip_id is None || forall|i: int| 0 <= i < self.recording_clips@.len()
                ==> self.recording_clips@[i].id != self.selected_recording_clip_id->0),
    {
        match self.selected_recording_clip_id {
            None => None,
            Some(id) => {
                let mut i: usize = 0;
                while i < self.recording_clips.len()
                    invariant
                        i <= self.recording_clips@.len(),
                        self.selected_recording_clip_id == Some(id),
                        forall|j: int| 0 <= j < i ==> self.recording_clips@[j].id != id,
                    decreases self.recording_clips@.len() - i,
                {
                    if self.recording_clips[i].id == id {
                        return Some(i);
                    }
                    i = i + 1;
                }
                None
            },
        }
    }

    /// The selected committed clip.
    pub fn selected_recording_clip(&self) -> (r: Option<RecordingClip>)
        ensures
            r matches Some(clip) ==> Some(clip.id) == self.selected_recording_clip_id
                && exists|i: int| 0 <= i < self.recording_clips@.len() && self.recording_clips@[i] == clip,
            r is None ==> (self.selected_recording_clip_id is None || forall|i: int| 0 <= i < self.recording_clips@.len()
                ==> self.recording_clips@[i].id != self.selected_recording_clip_id->0),
    {
        match self.selected_recording_clip_index() {
            Some(i) => Some(self.recording_clips[i]),
            None => None,
        }
    }

    /// The clip a clip action works on: the selected clip, or the only clip of the track.
    pub fn selected_recording_clip_or_only_index(&self) -> (r: Option<usize>)
        ensures
            r matches Some(i) ==> i < self.recording_clips@.len(),
            r matches Some(i) ==> (Some(self.recording_clips@[i as int].id) == self.selected_recording_clip_id
                || (self.recording_clips@.len() == 1 && i == 0)),
            r is None ==> self.recording_clips@.len() != 1,
    {
        match self.selected_recording_clip_index() {
            Some(i) => Some(i),
            None => if self.recording_clips.len() == 1 {
                Some(0)
            } else {
                None
            },
        }
    }

    /// An identifier no clip of the track uses yet: one past the largest.
    pub fn next_recording_clip_id(&self) -> (r: Option<u64>)
        ensures
            r matches Some(id) ==> forall|i: int| 0 <= i < self.recording_clips@.len() ==> self.recording_clips@[i].id < id,
            r is None ==> exists|i: int| 0 <= i < self.recording_clips@.len() && self.recording_clips@[i].id == u64::MAX,
    {
        let mut max_id: u64 = 0;
        let mut i: usize = 0;
        while i < self.recording_clips.len()
            invariant
                i <= self.recording_clips@.len(),
                forall|j: int| 0 <= j < i ==> self.recording_clips@[j].id <= max_id,
                max_id == 0 || exists|j: int| 0 <= j < i && self.recording_clips@[j].id == max_id,
            decreases self.recording_clips@.len() - i,
        {
            if self.recording_clips[i].id > max_id {
                max_id = self.recording_clips[i].id;
            }
            i = i + 1;
        }
        if max_id == u64::MAX {
            None
        } else {
            Some(max_id + 1)
        }
    }

    /// Commits a released pass as a new recording clip that becomes the selected clip.
    /// Nothing is committed when the pass records no ticks or the track has run out of
    /// clip identifiers.
    pub fn commit_take(&mut self, transport: Transport, take: RecordingTake, context: Option<RecordContext>)
        requires
            old(self).wf(),
            context matches Some(ctx) ==> ctx.range.wf(),
        ensures
            final(self).wf(),
            take_committed(*old(self), *final(self), transport, take, context),
    {
        let end = match take.release_ticks {
            Some(end) => end,
            None => return,
        };
        let id = match self.next_recording_clip_id() {
            Some(id) => id,
            None => return,
        };
        let region = match record_region(take.start_ticks, end, context, Some(id)) {
            Some(region) => region,
            None => return,
        };
        let native_end = if region.start_ticks <= u64::MAX - region.length_ticks {
            region.start_ticks + region.length_ticks
        } else {
            u64::MAX
        };
        let clip = RecordingClip {
            id,
            region,
            muted: false,
            native_start_ticks: region.start_ticks,
            native_end_ticks: native_end,
            native_duration_ticks: region.length_ticks,
            native_capture_tempo_bpm: transport.tempo_bpm,
        };
        let ghost old_clips = self.recording_clips@;
        self.recording_clips.push(clip);
        self.regions.push(region);
        self.selected_recording_clip_id = Some(id);
        assert(self.recording_clips@.drop_last() =~= old_clips);
        assert(clip_ids_unique(self.recording_clips@));
    }

    /// Starts a recording pass at `pressed_at`.
    pub fn begin_recording(&mut self, pressed_at: u64)
        ensures
            final(self).active_take == Some(RecordingTake { start_ticks: pressed_at, release_ticks: None }),
            final(self).recording_clips == old(self).recording_clips,
            final(self).regions == old(self).regions,
            final(self).midi_notes == old(self).midi_notes,
            final(self).selected_recording_clip_id == old(self).selected_recording_clip_id,
            final(self).state == old(self).state,
            final(self).loop_region == old(self).loop_region,
            final(self).midi_fx == old(self).midi_fx,
            final(self).recording_view == old(self).recording_view,
            *final(self) == (Track { active_take: final(self).active_take, ..*old(self) }),
    {
        self.active_take = Some(RecordingTake::new(pressed_at));
    }

    /// Ends the pass in progress at `release_ticks` and commits what it recorded.
    pub fn finish_recording(&mut self, transport: Transport, release_ticks: u64, context: Option<RecordContext>)
        requires
            old(self).wf(),
            context matches Some(ctx) ==> ctx.range.wf(),
        ensures
            final(self).wf(),
            final(self).active_take is None,
            old(self).active_take matches Some(take) ==> take_committed(
                Track { active_take: None, ..*old(self) },
                *final(self),
                transport,
                RecordingTake { start_ticks: take.start_ticks, release_ticks: Some(release_ticks) },
                context,
            ),
            old(self).active_take is None ==> *final(self) == *old(self),
    {
        match self.active_take {
            None => {},
            Some(take) => {
                self.active_take = None;
                self.commit_take(transport, take.release(release_ticks), context);
            },
        }
    }

    /// The region the pass in progress would commit if it ended at `capture_ticks`.
    pub fn preview_region(&self, transport: Transport, capture_ticks: u64, context: Option<RecordContext>) -> (r: Option<Region>)
        requires
            context matches Some(ctx) ==> ctx.range.wf(),
        ensures
            self.active_take is None ==> r is None,
            self.active_take matches Some(take) ==> {
                let span = recorded_span(take.start_ticks as int, capture_ticks as int, context);
                &&& r is Some <==> span is Some
                &&& r matches Some(region) ==> region.start_ticks == span_start(span) && region.length_ticks == span_len(span)
                    && region.recording_clip_id is None
            },
    {
        match self.active_take {
            None => None,
            Some(take) => record_region(take.start_ticks, capture_ticks, context, None),
        }
    }
}

/// The end of a clip's native span: its region's end, held at `u64::MAX`.
pub open spec fn native_end(region: Region) -> u64 {
    if region.start_ticks + region.length_ticks <= u64::MAX {
        (region.start_ticks + region.length_ticks) as u64
    } else {
        u64::MAX
    }
}

/// What committing the released pass `take` does to track `a`, giving `b`: when the pass
/// recorded a span and a fresh clip identifier is left, a new unmuted clip over that span,
/// with an identifier above every earlier one and its native span and capture tempo, is
/// appended with its region and becomes the selected clip; the earlier clips, regions and
/// notes are kept. Otherwise the clips, regions and selection stay as they were. Nothing
/// else changes.
pub open spec fn take_committed(a: Track, b: Track, transport: Transport, take: RecordingTake, context: Option<RecordContext>) -> bool {
    let span = match take.release_ticks {
        Some(end) => recorded_span(take.start_ticks as int, end as int, context),
        None => None,
    };
    &&& b.state == a.state
    &&& b.loop_region == a.loop_region
    &&& b.midi_fx == a.midi_fx
    &&& b.active_take == a.active_take
    &&& b.midi_notes == a.midi_notes
    &&& b.recording_view == a.recording_view
    &&& b.recording_clip_scroll == a.recording_clip_scroll
    &&& (span is Some && forall|i: int| 0 <= i < a.recording_clips@.len() ==> a.recording_clips@[i].id < u64::MAX)
        ==> b.recording_clips@.len() == a.recording_clips@.len() + 1
    &&& if span is Some && b.recording_clips@.len() == a.recording_clips@.len() + 1 {
        let clip = b.recording_clips@.last();
        &&& b.recording_clips@.drop_last() == a.recording_clips@
        &&& b.regions@ == a.regions@.push(clip.region)
        &&& clip.region.start_ticks == span_start(span)
        &&& clip.region.length_ticks == span_len(span)
        &&& clip.region.recording_clip_id == Some(clip.id)
        &&& !clip.muted
        &&& forall|i: int| 0 <= i < a.recording_clips@.len() ==> a.recording_clips@[i].id < clip.id
        &&& clip.native_start_ticks == clip.region.start_ticks
        &&& clip.native_end_ticks == native_end(clip.region)
        &&& clip.native_duration_ticks == clip.region.length_ticks
        &&& clip.native_capture_tempo_bpm == transport.tempo_bpm
        &&& b.selected_recording_clip_id == Some(clip.id)
    } else {
        &&& b.recording_clips == a.recording_clips
        &&& b.regions == a.regions
        &&& b.selected_recording_clip_id == a.selected_recording_clip_id
    }
}

/// Filtering a prefix one element longer adds that element when it passes.
pub proof fn lemma_filter_step<A>(s: Seq<A>, k: int, pred: spec_fn(A) -> bool)
    requires
        0 <= k < s.len(),
    ensures
        s.take(k + 1).filter(pred) == (if pred(s[k]) {
            s.take(k).filter(pred).push(s[k])
        } else {
            s.take(k).filter(pred)
        }),
{
    reveal_with_fuel(Seq::filter, 2);
    let next = s.take(k + 1);
    assert(next.drop_last() =~= s.take(k));
    assert(next.last() == s[k]);
}

/// Entries of `items` whose recording clip is not `id`.
pub open spec fn without_clip_regions(items: Seq<Region>, id: u64) -> Seq<Region> {
    items.filter(|r: Region| r.recording_clip_id != Some(id))
}

pub open spec fn without_clip_notes(items: Seq<MidiNote>, id: u64) -> Seq<MidiNote> {
    items.filter(|n: MidiNote| n.recording_clip_id != Some(id))
}

impl Track {
    /// Selects the clip before the selected one; with nothing selected, the last clip.
    pub fn select_previous_recording_clip(&mut self)
        requires
            old(self).wf(),
        ensures
            previous_clip_selected(*old(self), *final(self)),
    {
        let ghost clips = self.recording_clips@;
        match self.selected_recording_clip_index() {
            Some(i) => {
                proof {
                    let id = self.selected_recording_clip_id->0;
                    assert(clips[i as int].id == id);
                    assert(exists|k: int| 0 <= k < clips.len() && clips[k].id == id);
                    let c = choose|k: int| 0 <= k < clips.len() && clips[k].id == id;
                    assert(c == i);
                }
                let target = if i > 0 { i - 1 } else { 0 };
                self.selected_recording_clip_id = Some(self.recording_clips[target].id);
            },
            None => {
                if self.selected_recording_clip_id.is_none() && self.recording_clips.len() > 0 {
                    let last = self.recording_clips.len() - 1;
                    self.selected_recording_clip_id = Some(self.recording_clips[last].id);
                }
            },
        }
    }

    /// Selects the clip after the selected one; with nothing selected, the first clip.
    pub fn select_next_recording_clip(&mut self)
        requires
            old(self).wf(),
        ensures
            next_clip_selected(*old(self), *final(self)),
    {
        let ghost clips = self.recording_clips@;
        match self.selected_recording_clip_index() {
            Some(i) => {
                proof {
                    let id = self.selected_recording_clip_id->0;
                    assert(clips[i as int].id == id);
                    assert(exists|k: int| 0 <= k < clips.len() && clips[k].id == id);
                    let c = choose|k: int| 0 <= k < clips.len() && clips[k].id == id;
                    assert(c == i);
                }
                let target = if i < self.recording_clips.len() - 1 { i + 1 } else { i };
                self.selected_recording_clip_id = Some(self.recording_clips[target].id);
            },
            None => {
                if self.selected_recording_clip_id.is_none() && self.recording_clips.len() > 0 {
                    self.selected_recording_clip_id = Some(self.recording_clips[0].id);
                }
            },
        }
    }

    /// Mutes or unmutes the selected clip.
    pub fn toggle_selected_recording_clip_mute(&mut self)
        requires
            old(self).wf(),
        ensures
            clip_mute_toggled(*old(self), *final(self)),
    {
        let ghost clips = self.recording_clips@;
        match self.selected_recording_clip_index() {
            Some(i) => {
                let mut clip = self.recording_clips[i];
                clip.muted = !clip.muted;
                self.recording_clips.set(i, clip);
                proof {
                    assert forall|k: int| 0 <= k < clips.len() && k != i implies clips[k].id != self.selected_recording_clip_id->0 by {
                    }
                    assert(clip_ids_unique(self.recording_clips@));
                }
            },
            None => {},
        }
    }

    /// Deletes the selected clip together with its regions and notes.
    pub fn delete_selected_recording_clip(&mut self)
        requires
            old(self).wf(),
        ensures
            clip_deleted(*old(self), *final(self)),
    {
        let ghost clips = self.recording_clips@;
        match self.selected_recording_clip_index() {
            Some(i) => {
                let id = self.recording_clips[i].id;
                proof {
                    assert(exists|k: int| 0 <= k < clips.len() && clips[k].id == id);
                    let c = choose|k: int| 0 <= k < clips.len() && clips[k].id == id;
                    assert(c == i);
                }
                self.recording_clips.remove(i);
                let mut regions: Vec<Region> = Vec::new();
                let mut k: usize = 0;
                while k < self.regions.len()
                    invariant
                        k <= self.regions@.len(),
                        regions@ == without_clip_regions(self.regions@.take(k as int), id),
                    decreases self.regions@.len() - k,
                {
                    let region = self.regions[k];
                    proof {
                        lemma_filter_step(self.regions@, k as int, |r: Region| r.recording_clip_id != Some(id));
                    }
                    if region.recording_clip_id != Some(id) {
                        regions.push(region);
                    }
                    k = k + 1;
                }
                assert(self.regions@.take(self.regions@.len() as int) == self.regions@);
                let mut notes: Vec<MidiNote> = Vec::new();
                let mut n: usize = 0;
                while n < self.midi_notes.len()
                    invariant
                        n <= self.midi_notes@.len(),
                        notes@ == without_clip_notes(self.midi_notes@.take(n as int), id),
                    decreases self.midi_notes@.len() - n,
                {
                    let note = self.midi_notes[n];
                    proof {
                        lemma_filter_step(self.midi_notes@, n as int, |n: MidiNote| n.recording_clip_id != Some(id));
                    }
                    if note.recording_clip_id != Some(id) {
                        notes.push(note);
                    }
                    n = n + 1;
                }
                assert(self.midi_notes@.take(self.midi_notes@.len() as int) == self.midi_notes@);
                self.regions = regions;
                self.midi_notes = notes;
                self.selected_recording_clip_id = None;
                proof {
                    let after = self.recording_clips@;
                    assert forall|a: int, b: int| 0 <= a < after.len() && 0 <= b < after.len() && a != b implies after[a].id != after[b].id by {
                        let a0 = if a < i { a } else { a + 1 };
                        let b0 = if b < i { b } else { b + 1 };
                        assert(after[a] == clips[a0]);
                        assert(after[b] == clips[b0]);
                    }
                }
            },
            None => {},
        }
    }

    /// Replaces the track loop, switching looping on when `enable` is set.
    pub fn set_loop(&mut self, region: LoopRegion, enable: bool)
        requires
            old(self).wf(),
            region.wf(),
        ensures
            final(self).wf(),
            *final(self) == (Track {
                loop_region: region,
                state: TrackState { loop_enabled: old(self).state.loop_enabled || enable, ..old(self).state },
                ..*old(self)
            }),
    {
        self.loop_region = region;
        if enable {
            self.state.loop_enabled = true;
        }
    }

    /// Switches between overlaid and stacked clip display.
    pub fn toggle_recording_view(&mut self)
        ensures
            final(self).recording_view == (if old(self).recording_view == RecordingView::Overlay {
                RecordingView::Stacked
            } else {
                RecordingView::Overlay
            }),
            *final(self) == (Track { recording_view: final(self).recording_view, ..*old(self) }),
    {
        self.recording_view = if self.recording_view == RecordingView::Overlay {
            RecordingView::Stacked
        } else {
            RecordingView::Overlay
        };
    }
}

/// Effect of `select_previous_recording_clip`: the clip before the selected one becomes selected
/// (the first stays selected); with nothing selected, the last clip.
pub open spec fn previous_clip_selected(a: Track, b: Track) -> bool {
    &&& b.wf()
    &&& b.recording_clips == a.recording_clips
    &&& b.regions == a.regions
    &&& b.active_take == a.active_take
    &&& b.midi_fx == a.midi_fx
    &&& b.state == a.state
    &&& b.loop_region == a.loop_region
    &&& ({
        let clips = a.recording_clips@;
        match a.selected_recording_clip_id {
            Some(id) => match clip_position(clips, id) {
                Some(i) => b.selected_recording_clip_id == Some(clips[if i > 0 { i - 1 } else { 0 }].id),
                None => b.selected_recording_clip_id == a.selected_recording_clip_id,
            },
            None => if clips.len() > 0 {
                b.selected_recording_clip_id == Some(clips.last().id)
            } else {
                b.selected_recording_clip_id is None
            },
        }
    })
}

/// Effect of `select_next_recording_clip`: the clip after the selected one becomes selected
/// (the last stays selected); with nothing selected, the first clip.
pub open spec fn next_clip_selected(a: Track, b: Track) -> bool {
    &&& b.wf()
    &&& b.recording_clips == a.recording_clips
    &&& b.regions == a.regions
    &&& b.active_take == a.active_take
    &&& b.midi_fx == a.midi_fx
    &&& b.state == a.state
    &&& b.loop_region == a.loop_region
    &&& ({
        let clips = a.recording_clips@;
        match a.selected_recording_clip_id {
            Some(id) => match clip_position(clips, id) {
                Some(i) => b.selected_recording_clip_id == Some(clips[if i + 1 < clips.len() { i + 1 } else { i }].id),
                None => b.selected_recording_clip_id == a.selected_recording_clip_id,
            },
            None => if clips.len() > 0 {
                b.selected_recording_clip_id == Some(clips[0].id)
            } else {
                b.selected_recording_clip_id is None
            },
        }
    })
}

/// Effect of `toggle_selected_recording_clip_mute`: the selected clip flips between muted and
/// audible.
pub open spec fn clip_mute_toggled(a: Track, b: Track) -> bool {
    &&& b.wf()
    &&& b.recording_clips@.len() == a.recording_clips@.len()
    &&& b.selected_recording_clip_id == a.selected_recording_clip_id
    &&& b.regions == a.regions
    &&& b.active_take == a.active_take
    &&& b.midi_fx == a.midi_fx
    &&& b.state == a.state
    &&& b.loop_region == a.loop_region
    &&& forall|i: int| 0 <= i < a.recording_clips@.len() ==> {
        let before = a.recording_clips@[i];
        let after = #[trigger] b.recording_clips@[i];
        &&& after.id == before.id
        &&& after.region == before.region
        &&& after.muted == (if Some(before.id) == a.selected_recording_clip_id { !before.muted } else { before.muted })
    }
}

/// Effect of `delete_selected_recording_clip`: the selected clip, its regions and its notes are
/// removed and nothing stays selected.
pub open spec fn clip_deleted(a: Track, b: Track) -> bool {
    &&& b.wf()
    &&& b.active_take == a.active_take
    &&& b.midi_fx == a.midi_fx
    &&& b.state == a.state
    &&& b.loop_region == a.loop_region
    &&& ({
        let clips = a.recording_clips@;
        match a.selected_recording_clip_id {
            Some(id) => match clip_position(clips, id) {
                Some(i) => {
                    &&& b.recording_clips@ == clips.remove(i)
                    &&& b.regions@ == without_clip_regions(a.regions@, id)
                    &&& b.midi_notes@ == without_clip_notes(a.midi_notes@, id)
                    &&& b.selected_recording_clip_id is None
                },
                None => b.recording_clips == a.recording_clips && b.regions == a.regions,
            },
            None => b.recording_clips == a.recording_clips && b.regions == a.regions,
        }
    })
}

/// The song: tracks, the active track, the transport and the song loop.
#[derive(Debug, Clone, PartialEq, Eq)]
pub struct Project {
    pub tracks: Vec<Track>,
    pub active_track_index: usize,
    pub transport: Transport,
    pub loop_region: LoopRegion,
}

impl Project {
    /// The song loop and every track are well formed.
    pub open spec fn wf(self) -> bool {
        &&& self.loop_region.wf()
        &&& forall|i: int| 0 <= i < self.tracks@.len() ==> (#[trigger] self.tracks@[i]).wf()
    }

    /// The active track, if the index points at one.
    pub fn active_track(&self) -> (r: Option<&Track>)
        ensures
            r == (if self.active_track_index < self.tracks@.len() {
                Some(&self.tracks@[self.active_track_index as int])
            } else {
                None
            }),
    {
        if self.active_track_index < self.tracks.len() {
            Some(&self.tracks[self.active_track_index])
        } else {
            None
        }
    }

    /// The active track for editing, if the index points at one.
    pub fn active_track_mut(&mut self) -> (r: Option<&mut Track>)
        ensures
            old(self).active_track_index < old(self).tracks@.len() <==> r is Some,
            r matches Some(t) ==> {
                &&& *t == old(self).tracks@[old(self).active_track_index as int]
                &&& final(self).tracks@ == old(self).tracks@.update(old(self).active_track_index as int, *final(t))
                &&& final(self).active_track_index == old(self).active_track_index
                &&& final(self).transport == old(self).transport
                &&& final(self).loop_region == old(self).loop_region
            },
            r is None ==> *final(self) == *old(self),
    {
        if self.active_track_index < self.tracks.len() {
            let index = self.active_track_index;
            Some(&mut self.tracks[index])
        } else {
            None
        }
    }

    /// Makes `index` the active track when such a track exists.
    pub fn select_track(&mut self, index: usize)
        ensures
            final(self).active_track_index == (if index < old(self).tracks@.len() { index } else { old(self).active_track_index }),
            final(self).tracks == old(self).tracks,
            final(self).transport == old(self).transport,
            final(self).loop_region == old(self).loop_region,
    {
        if index < self.tracks.len() {
            self.active_track_index = index;
        }
    }

    /// Clears the recorded content of every track.
    pub fn clear_all_track_content(&mut self)
        requires
            old(self).wf(),
        ensures
            final(self).wf(),
            final(self).tracks@.len() == old(self).tracks@.len(),
            forall|i: int| 0 <= i < final(self).tracks@.len() ==> {
                &&& (#[trigger] final(self).tracks@[i]).regions@.len() == 0
                &&& final(self).tracks@[i].recording_clips@.len() == 0
                &&& final(self).tracks@[i].active_take is None
                &&& final(self).tracks@[i].state == old(self).tracks@[i].state
                &&& final(self).tracks@[i].midi_fx == old(self).tracks@[i].midi_fx
                &&& final(self).tracks@[i].loop_region == old(self).tracks@[i].loop_region
            },
            final(self).active_track_index == old(self).active_track_index,
            final(self).transport == old(self).transport,
            final(self).loop_region == old(self).loop_region,
    {
        let mut i: usize = 0;
        while i < self.tracks.len()
            invariant
                i <= self.tracks@.len(),
                self.tracks@.len() == old(self).tracks@.len(),
                self.active_track_index == old(self).active_track_index,
                self.transport == old(self).transport,
                self.loop_region == old(self).loop_region,
                forall|j: int| i <= j < self.tracks@.len() ==> self.tracks@[j] == old(self).tracks@[j],
                forall|j: int| 0 <= j < i ==> {
                    &&& (#[trigger] self.tracks@[j]).regions@.len() == 0
                    &&& self.tracks@[j].recording_clips@.len() == 0
                    &&& self.tracks@[j].active_take is None
                    &&& self.tracks@[j].state == old(self).tracks@[j].state
                    &&& self.tracks@[j].midi_fx == old(self).tracks@[j].midi_fx
                    &&& self.tracks@[j].loop_region == old(self).tracks@[j].loop_region
                },
                forall|j: int| 0 <= j < self.tracks@.len() ==> (#[trigger] self.tracks@[j]).wf(),
            decreases self.tracks@.len() - i,
        {
            self.tracks[i].clear_content();
            i = i + 1;
        }
    }
}

/// The two FX racks of a track.
#[derive(Debug, Clone, Copy, PartialEq, Eq, Structural)]
pub enum MidiFxChainKind {
    Input,
    Output,
}

impl TrackMidiFx {
    pub open spec fn chain(self, kind: MidiFxChainKind) -> Seq<Option<MidiFxSlot>> {
        match kind {
            MidiFxChainKind::Input => self.input_fx@,
            MidiFxChainKind::Output => self.output_fx@,
        }
    }

    pub open spec fn windows(self, kind: MidiFxChainKind) -> Seq<usize> {
        match kind {
            MidiFxChainKind::Input => self.timeline_ui.input_param_windows@,
            MidiFxChainKind::Output => self.timeline_ui.output_param_windows@,
        }
    }

    pub open spec fn stored_row(self, kind: MidiFxChainKind) -> usize {
        match kind {
            MidiFxChainKind::Input => self.timeline_ui.input_selected_row,
            MidiFxChainKind::Output => self.timeline_ui.output_selected_row,
        }
    }

    /// Everything but the given rack, its windows and its selected row are equal.
    pub open spec fn same_except(self, other: TrackMidiFx, kind: MidiFxChainKind) -> bool {
        match kind {
            MidiFxChainKind::Input => {
                &&& self.output_fx == other.output_fx
                &&& self.timeline_ui.output_param_windows == other.timeline_ui.output_param_windows
                &&& self.timeline_ui.output_selected_row == other.timeline_ui.output_selected_row
            },
            MidiFxChainKind::Output => {
                &&& self.input_fx == other.input_fx
                &&& self.timeline_ui.input_param_windows == other.timeline_ui.input_param_windows
                &&& self.timeline_ui.input_selected_row == other.timeline_ui.input_selected_row
            },
        }
    }

    /// Number of slots of a rack.
    pub fn chain_len(&self, kind: MidiFxChainKind) -> (r: usize)
        ensures
            r == self.chain(kind).len(),
    {
        match kind {
            MidiFxChainKind::Input => self.input_fx.len(),
            MidiFxChainKind::Output => self.output_fx.len(),
        }
    }

    /// Content of slot `index` of a rack.
    pub fn slot(&self, kind: MidiFxChainKind, index: usize) -> (r: Option<MidiFxSlot>)
        requires
            index < self.chain(kind).len(),
        ensures
            r == self.chain(kind)[index as int],
    {
        match kind {
            MidiFxChainKind::Input => self.input_fx[index],
            MidiFxChainKind::Output => self.output_fx[index],
        }
    }

    /// Parameter window of slot `index`, zero when the slot has none.
    pub fn window(&self, kind: MidiFxChainKind, index: usize) -> (r: usize)
        ensures
            index < self.windows(kind).len() ==> r == self.windows(kind)[index as int],
            index >= self.windows(kind).len() ==> r == 0,
    {
        let windows = match kind {
            MidiFxChainKind::Input => &self.timeline_ui.input_param_windows,
            MidiFxChainKind::Output => &self.timeline_ui.output_param_windows,
        };
        if index < windows.len() {
            windows[index]
        } else {
            0
        }
    }

    /// Selected row stored for a rack.
    pub fn selected_row(&self, kind: MidiFxChainKind) -> (r: usize)
        ensures
            r == self.stored_row(kind),
    {
        match kind {
            MidiFxChainKind::Input => self.timeline_ui.input_selected_row,
            MidiFxChainKind::Output => self.timeline_ui.output_selected_row,
        }
    }

    /// Replaces slot `index` of a rack.
    pub fn set_slot(&mut self, kind: MidiFxChainKind, index: usize, value: Option<MidiFxSlot>)
        requires
            index < old(self).chain(kind).len(),
        ensures
            final(self).chain(kind) == old(self).chain(kind).update(index as int, value),
            final(self).windows(kind) == old(self).windows(kind),
            final(self).stored_row(kind) == old(self).stored_row(kind),
            final(self).same_except(*old(self), kind),
    {
        match kind {
            MidiFxChainKind::Input => self.input_fx.set(index, value),
            MidiFxChainKind::Output => self.output_fx.set(index, value),
        }
    }

    /// Sets the parameter window of slot `index`, when the slot has one.
    pub fn set_window(&mut self, kind: MidiFxChainKind, index: usize, value: usize)
        ensures
            index < old(self).windows(kind).len() ==> final(self).windows(kind) == old(self).windows(kind).update(index as int, value),
            index >= old(self).windows(kind).len() ==> final(self).windows(kind) == old(self).windows(kind),
            final(self).chain(kind) == old(self).chain(kind),
            final(self).stored_row(kind) == old(self).stored_row(kind),
            final(self).same_except(*old(self), kind),
    {
        match kind {
            MidiFxChainKind::Input => if index < self.timeline_ui.input_param_windows.len() {
                self.timeline_ui.input_param_windows.set(index, value);
            },
            MidiFxChainKind::Output => if index < self.timeline_ui.output_param_windows.len() {
                self.timeline_ui.output_param_windows.set(index, value);
            },
        }
    }

    /// Stores the selected row of a rack.
    pub fn set_selected_row(&mut self, kind: MidiFxChainKind, row: usize)
        ensures
            final(self).stored_row(kind) == row,
            final(self).chain(kind) == old(self).chain(kind),
            final(self).windows(kind) == old(self).windows(kind),
            final(self).same_except(*old(self), kind),
    {
        match kind {
            MidiFxChainKind::Input => self.timeline_ui.input_selected_row = row,
            MidiFxChainKind::Output => self.timeline_ui.output_selected_row = row,
        }
    }

    /// Exchanges two slots of a rack together with their parameter windows.
    pub fn swap_slots(&mut self, kind: MidiFxChainKind, a: usize, b: usize)
        requires
            old(self).wf(),
            a < old(self).chain(kind).len(),
            b < old(self).chain(kind).len(),
        ensures
            final(self).wf(),
            final(self).chain(kind) == old(self).chain(kind).update(a as int, old(self).chain(kind)[b as int]).update(b as int, old(self).chain(kind)[a as int]),
            final(self).windows(kind) == old(self).windows(kind).update(a as int, old(self).windows(kind)[b as int]).update(b as int, old(self).windows(kind)[a as int]),
            final(self).stored_row(kind) == old(self).stored_row(kind),
            final(self).same_except(*old(self), kind),
    {
        let slot_a = self.slot(kind, a);
        let slot_b = self.slot(kind, b);
        let window_a = self.window(kind, a);
        let window_b = self.window(kind, b);
        self.set_slot(kind, a, slot_b);
        self.set_slot(kind, b, slot_a);
        self.set_window(kind, a, window_b);
        self.set_window(kind, b, window_a);
    }
}

} // verus!
