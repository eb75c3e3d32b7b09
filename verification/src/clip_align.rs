//! Clip align: fitting a committed recording clip onto a loop of a whole number of bars,
//! optionally by changing the tempo instead of stretching the notes.
//!
//! The source range of the clip is chosen by a start and an end rule; the fit maps it
//! linearly onto `[destination, destination + target)`.
use vstd::prelude::*;
use crate::project::{Track, RecordingClip, MidiNote, Transport};
use crate::timeline::Region;

verus! {

/// The editable fields of the clip align panel, in panel order.
#[derive(Debug, Clone, Copy, PartialEq, Eq, Structural)]
pub enum ClipAlignField {
    SourceStart,
    SourceEnd,
    TargetLength,
    Destination,
    ApplyMode,
    LoopEnable,
}

/// Number of clip align fields.
pub const CLIP_ALIGN_FIELD_COUNT: usize = 6;

impl ClipAlignField {
    pub open spec fn spec_index(self) -> nat {
        match self {
            ClipAlignField::SourceStart => 0,
            ClipAlignField::SourceEnd => 1,
            ClipAlignField::TargetLength => 2,
            ClipAlignField::Destination => 3,
            ClipAlignField::ApplyMode => 4,
            ClipAlignField::LoopEnable => 5,
        }
    }

    pub open spec fn spec_from_index(i: nat) -> ClipAlignField {
        if i == 0 { ClipAlignField::SourceStart }
        else if i == 1 { ClipAlignField::SourceEnd }
        else if i == 2 { ClipAlignField::TargetLength }
        else if i == 3 { ClipAlignField::Destination }
        else if i == 4 { ClipAlignField::ApplyMode }
        else { ClipAlignField::LoopEnable }
    }

    pub fn from_index(i: usize) -> (r: ClipAlignField)
        requires
            i < CLIP_ALIGN_FIELD_COUNT,
        ensures
            r == ClipAlignField::spec_from_index(i as nat),
            r.spec_index() == i,
    {
        if i == 0 { ClipAlignField::SourceStart }
        else if i == 1 { ClipAlignField::SourceEnd }
        else if i == 2 { ClipAlignField::TargetLength }
        else if i == 3 { ClipAlignField::Destination }
        else if i == 4 { ClipAlignField::ApplyMode }
        else { ClipAlignField::LoopEnable }
    }

    pub fn index(&self) -> (r: usize)
        ensures
            r == self.spec_index(),
            r < CLIP_ALIGN_FIELD_COUNT,
    {
        match self {
            ClipAlignField::SourceStart => 0,
            ClipAlignField::SourceEnd => 1,
            ClipAlignField::TargetLength => 2,
            ClipAlignField::Destination => 3,
            ClipAlignField::ApplyMode => 4,
            ClipAlignField::LoopEnable => 5,
        }
    }

    /// Every field, in panel order.
    pub fn all() -> (r: Vec<ClipAlignField>)
        ensures
            r@.len() == CLIP_ALIGN_FIELD_COUNT,
            forall|i: int| 0 <= i < CLIP_ALIGN_FIELD_COUNT ==> (#[trigger] r@[i]).spec_index() == i,
    {
        let mut r: Vec<ClipAlignField> = Vec::new();
        let mut i: usize = 0;
        while i < CLIP_ALIGN_FIELD_COUNT
            invariant
                i <= CLIP_ALIGN_FIELD_COUNT,
                r@.len() == i,
                forall|j: int| 0 <= j < i ==> (#[trigger] r@[j]).spec_index() == j,
            decreases CLIP_ALIGN_FIELD_COUNT - i,
        {
            r.push(ClipAlignField::from_index(i));
            i = i + 1;
        }
        r
    }

    /// The neighbouring field, wrapping around the panel.
    pub fn step(&self, forward: bool) -> (r: ClipAlignField)
        ensures
            forward ==> r.spec_index() == (self.spec_index() + 1) % 6,
            !forward ==> r.spec_index() == (self.spec_index() + 5) % 6,
    {
        let i = self.index();
        if forward {
            ClipAlignField::from_index((i + 1) % CLIP_ALIGN_FIELD_COUNT)
        } else {
            ClipAlignField::from_index((i + 5) % CLIP_ALIGN_FIELD_COUNT)
        }
    }
}

#[derive(Debug, Clone, Copy, PartialEq, Eq, Structural)]
pub enum ClipAlignSourceStartMode {
    ClipStart,
    FirstNote,
}

#[derive(Debug, Clone, Copy, PartialEq, Eq, Structural)]
pub enum ClipAlignSourceEndMode {
    ClipEnd,
    StartOfLastNote,
    LastNoteEnd,
}

/// Target loop lengths in bars.
#[derive(Debug, Clone, Copy, PartialEq, Eq, Structural)]
pub enum ClipAlignTargetLength {
    Bar1,
    Bar2,
    Bar4,
    Bar8,
    Bar16,
}

impl ClipAlignTargetLength {
    pub open spec fn spec_bars(self) -> nat {
        match self {
            ClipAlignTargetLength::Bar1 => 1,
            ClipAlignTargetLength::Bar2 => 2,
            ClipAlignTargetLength::Bar4 => 4,
            ClipAlignTargetLength::Bar8 => 8,
            ClipAlignTargetLength::Bar16 => 16,
        }
    }

    pub fn bars(&self) -> (r: u64)
        ensures
            r == self.spec_bars(),
    {
        match self {
            ClipAlignTargetLength::Bar1 => 1,
            ClipAlignTargetLength::Bar2 => 2,
            ClipAlignTargetLength::Bar4 => 4,
            ClipAlignTargetLength::Bar8 => 8,
            ClipAlignTargetLength::Bar16 => 16,
        }
    }

    pub open spec fn spec_next(self) -> ClipAlignTargetLength {
        match self {
            ClipAlignTargetLength::Bar1 => ClipAlignTargetLength::Bar2,
            ClipAlignTargetLength::Bar2 => ClipAlignTargetLength::Bar4,
            ClipAlignTargetLength::Bar4 => ClipAlignTargetLength::Bar8,
            _ => ClipAlignTargetLength::Bar16,
        }
    }

    pub open spec fn spec_previous(self) -> ClipAlignTargetLength {
        match self {
            ClipAlignTargetLength::Bar16 => ClipAlignTargetLength::Bar8,
            ClipAlignTargetLength::Bar8 => ClipAlignTargetLength::Bar4,
            ClipAlignTargetLength::Bar4 => ClipAlignTargetLength::Bar2,
            _ => ClipAlignTargetLength::Bar1,
        }
    }

    /// The next longer length, staying at the longest.
    pub fn next(&self) -> (r: ClipAlignTargetLength)
        ensures
            r == self.spec_next(),
    {
        match self {
            ClipAlignTargetLength::Bar1 => ClipAlignTargetLength::Bar2,
            ClipAlignTargetLength::Bar2 => ClipAlignTargetLength::Bar4,
            ClipAlignTargetLength::Bar4 => ClipAlignTargetLength::Bar8,
            _ => ClipAlignTargetLength::Bar16,
        }
    }

    /// The next shorter length, staying at the shortest.
    pub fn previous(&self) -> (r: ClipAlignTargetLength)
        ensures
            r == self.spec_previous(),
    {
        match self {
            ClipAlignTargetLength::Bar16 => ClipAlignTargetLength::Bar8,
            ClipAlignTargetLength::Bar8 => ClipAlignTargetLength::Bar4,
            ClipAlignTargetLength::Bar4 => ClipAlignTargetLength::Bar2,
            _ => ClipAlignTargetLength::Bar1,
        }
    }
}

/// Which loop the fitted clip is placed on.
#[derive(Debug, Clone, Copy, PartialEq, Eq, Structural)]
pub enum ClipAlignDestination {
    TrackLoop,
    SongLoop,
}

impl ClipAlignDestination {
    pub fn toggle(&self) -> (r: ClipAlignDestination)
        ensures
            r != *self,
    {
        match self {
            ClipAlignDestination::TrackLoop => ClipAlignDestination::SongLoop,
            ClipAlignDestination::SongLoop => ClipAlignDestination::TrackLoop,
        }
    }
}

/// Whether the fit stretches the notes or changes the tempo.
#[derive(Debug, Clone, Copy, PartialEq, Eq, Structural)]
pub enum ClipAlignApplyMode {
    FitOnly,
    FitAndTempo,
}

impl ClipAlignApplyMode {
    pub fn toggle(&self) -> (r: ClipAlignApplyMode)
        ensures
            r != *self,
    {
        match self {
            ClipAlignApplyMode::FitOnly => ClipAlignApplyMode::FitAndTempo,
            ClipAlignApplyMode::FitAndTempo => ClipAlignApplyMode::FitOnly,
        }
    }
}

/// The choices of the clip align panel.
#[derive(Debug, Clone, Copy, PartialEq, Eq, Structural)]
pub struct ClipAlignSettings {
    pub source_start_mode: ClipAlignSourceStartMode,
    pub source_end_mode: ClipAlignSourceEndMode,
    pub target_length: ClipAlignTargetLength,
    pub destination: ClipAlignDestination,
    pub apply_mode: ClipAlignApplyMode,
    pub enable_loop_on_apply: bool,
}

impl ClipAlignSettings {
    /// Whole clip, one bar, onto the track loop, stretching the notes, enabling the loop.
    pub fn default() -> (r: ClipAlignSettings)
        ensures
            r == (ClipAlignSettings {
                source_start_mode: ClipAlignSourceStartMode::ClipStart,
                source_end_mode: ClipAlignSourceEndMode::ClipEnd,
                target_length: ClipAlignTargetLength::Bar1,
                destination: ClipAlignDestination::TrackLoop,
                apply_mode: ClipAlignApplyMode::FitOnly,
                enable_loop_on_apply: true,
            }),
    {
        ClipAlignSettings {
            source_start_mode: ClipAlignSourceStartMode::ClipStart,
            source_end_mode: ClipAlignSourceEndMode::ClipEnd,
            target_length: ClipAlignTargetLength::Bar1,
            destination: ClipAlignDestination::TrackLoop,
            apply_mode: ClipAlignApplyMode::FitOnly,
            enable_loop_on_apply: true,
        }
    }
}

/// Why a fit cannot be applied.
#[derive(Debug, Clone, Copy, PartialEq, Eq, Structural)]
pub enum ClipAlignBlock {
    /// The chosen source range holds no ticks.
    EmptySource,
    /// The tempo the fit needs is outside the supported range.
    TempoOutOfRange,
    /// The track has no clip with the requested identifier.
    MissingClip,
}

impl ClipAlignBlock {
    pub fn label(&self) -> (r: &'static str)
        ensures
            *self == ClipAlignBlock::EmptySource ==> r@ == "Empty source range"@,
            *self == ClipAlignBlock::TempoOutOfRange ==> r@ == "Tempo out of range"@,
            *self == ClipAlignBlock::MissingClip ==> r@ == "Clip not found"@,
    {
        match self {
            ClipAlignBlock::EmptySource => "Empty source range",
            ClipAlignBlock::TempoOutOfRange => "Tempo out of range",
            ClipAlignBlock::MissingClip => "Clip not found",
        }
    }
}

/// What applying the current settings would do.
#[derive(Debug, Clone, Copy, PartialEq, Eq, Structural)]
pub struct ClipAlignPreview {
    pub source_length_ticks: u64,
    pub target_length_ticks: u64,
    pub tempo_preview_bpm: Option<u16>,
    pub tempo_locked: bool,
    pub blocked_reason: Option<ClipAlignBlock>,
}

/// An open clip align panel.
#[derive(Debug, Clone, Copy, PartialEq, Eq, Structural)]
pub struct ClipAlignSession {
    pub track_index: usize,
    pub clip_id: u64,
    pub selected_field: ClipAlignField,
    pub settings: ClipAlignSettings,
    pub preview: ClipAlignPreview,
}

/// Slowest and fastest tempo a fit may set.
pub const MIN_TEMPO_BPM: u16 = 20;
pub const MAX_TEMPO_BPM: u16 = 999;

/// The settings after stepping the selected field once in the direction of `delta`.
pub open spec fn spec_adjusted_settings(field: ClipAlignField, s: ClipAlignSettings, delta: int) -> ClipAlignSettings {
    match field {
        ClipAlignField::SourceStart => ClipAlignSettings {
            source_start_mode: if s.source_start_mode == ClipAlignSourceStartMode::ClipStart && delta > 0 {
                ClipAlignSourceStartMode::FirstNote
            } else if s.source_start_mode == ClipAlignSourceStartMode::FirstNote && delta < 0 {
                ClipAlignSourceStartMode::ClipStart
            } else {
                s.source_start_mode
            },
            ..s
        },
        ClipAlignField::SourceEnd => ClipAlignSettings {
            source_end_mode: if delta > 0 {
                match s.source_end_mode {
                    ClipAlignSourceEndMode::ClipEnd => ClipAlignSourceEndMode::StartOfLastNote,
                    ClipAlignSourceEndMode::StartOfLastNote => ClipAlignSourceEndMode::LastNoteEnd,
                    ClipAlignSourceEndMode::LastNoteEnd => ClipAlignSourceEndMode::ClipEnd,
                }
            } else if delta < 0 {
                match s.source_end_mode {
                    ClipAlignSourceEndMode::ClipEnd => ClipAlignSourceEndMode::LastNoteEnd,
                    ClipAlignSourceEndMode::StartOfLastNote => ClipAlignSourceEndMode::ClipEnd,
                    ClipAlignSourceEndMode::LastNoteEnd => ClipAlignSourceEndMode::StartOfLastNote,
                }
            } else {
                s.source_end_mode
            },
            ..s
        },
        ClipAlignField::TargetLength => ClipAlignSettings {
            target_length: if delta < 0 { s.target_length.spec_previous() } else { s.target_length.spec_next() },
            ..s
        },
        ClipAlignField::Destination => ClipAlignSettings {
            destination: if s.destination == ClipAlignDestination::TrackLoop {
                ClipAlignDestination::SongLoop
            } else {
                ClipAlignDestination::TrackLoop
            },
            ..s
        },
        ClipAlignField::ApplyMode => ClipAlignSettings {
            apply_mode: if s.apply_mode == ClipAlignApplyMode::FitOnly {
                ClipAlignApplyMode::FitAndTempo
            } else {
                ClipAlignApplyMode::FitOnly
            },
            ..s
        },
        ClipAlignField::LoopEnable => ClipAlignSettings { enable_loop_on_apply: !s.enable_loop_on_apply, ..s },
    }
}

/// Steps the selected field of the settings.
pub fn adjusted_settings(field: ClipAlignField, s: ClipAlignSettings, delta: i32) -> (r: ClipAlignSettings)
    ensures
        r == spec_adjusted_settings(field, s, delta as int),
{
    match field {
        ClipAlignField::SourceStart => ClipAlignSettings {
            source_start_mode: match (s.source_start_mode, delta > 0, delta < 0) {
                (ClipAlignSourceStartMode::ClipStart, true, _) => ClipAlignSourceStartMode::FirstNote,
                (ClipAlignSourceStartMode::FirstNote, _, true) => ClipAlignSourceStartMode::ClipStart,
                (mode, _, _) => mode,
            },
            ..s
        },
        ClipAlignField::SourceEnd => ClipAlignSettings {
            source_end_mode: if delta > 0 {
                match s.source_end_mode {
                    ClipAlignSourceEndMode::ClipEnd => ClipAlignSourceEndMode::StartOfLastNote,
                    ClipAlignSourceEndMode::StartOfLastNote => ClipAlignSourceEndMode::LastNoteEnd,
                    ClipAlignSourceEndMode::LastNoteEnd => ClipAlignSourceEndMode::ClipEnd,
                }
            } else if delta < 0 {
                match s.source_end_mode {
                    ClipAlignSourceEndMode::ClipEnd => ClipAlignSourceEndMode::LastNoteEnd,
                    ClipAlignSourceEndMode::StartOfLastNote => ClipAlignSourceEndMode::ClipEnd,
                    ClipAlignSourceEndMode::LastNoteEnd => ClipAlignSourceEndMode::StartOfLastNote,
                }
            } else {
                s.source_end_mode
            },
            ..s
        },
        ClipAlignField::TargetLength => ClipAlignSettings {
            target_length: if delta < 0 { s.target_length.previous() } else { s.target_length.next() },
            ..s
        },
        ClipAlignField::Destination => ClipAlignSettings { destination: s.destination.toggle(), ..s },
        ClipAlignField::ApplyMode => ClipAlignSettings { apply_mode: s.apply_mode.toggle(), ..s },
        ClipAlignField::LoopEnable => ClipAlignSettings { enable_loop_on_apply: !s.enable_loop_on_apply, ..s },
    }
}

/// Stepping a cycling field forward and then back restores the settings.
pub proof fn lemma_adjust_round_trip(field: ClipAlignField, s: ClipAlignSettings)
    requires
        field != ClipAlignField::TargetLength,
        field != ClipAlignField::SourceStart || s.source_start_mode == ClipAlignSourceStartMode::ClipStart,
    ensures
        spec_adjusted_settings(field, spec_adjusted_settings(field, s, 1), -1) == s,
{
}

/// Stepping one field leaves every other field unchanged.
pub proof fn lemma_adjust_touches_one_field(field: ClipAlignField, s: ClipAlignSettings, delta: int)
    ensures
        ({
            let r = spec_adjusted_settings(field, s, delta);
            &&& field != ClipAlignField::SourceStart ==> r.source_start_mode == s.source_start_mode
            &&& field != ClipAlignField::SourceEnd ==> r.source_end_mode == s.source_end_mode
            &&& field != ClipAlignField::TargetLength ==> r.target_length == s.target_length
            &&& field != ClipAlignField::Destination ==> r.destination == s.destination
            &&& field != ClipAlignField::ApplyMode ==> r.apply_mode == s.apply_mode
            &&& field != ClipAlignField::LoopEnable ==> r.enable_loop_on_apply == s.enable_loop_on_apply
        }),
{
}

/// Exclusive end of a clip on the timeline.
pub open spec fn clip_end(clip: RecordingClip) -> int {
    clip.region.start_ticks + clip.region.length_ticks
}

/// The clip's notes include a note starting at `v` and none starts earlier.
pub open spec fn is_first_note_start(notes: Seq<MidiNote>, id: u64, v: int) -> bool {
    &&& exists|i: int| 0 <= i < notes.len() && notes[i].recording_clip_id == Some(id) && notes[i].start_ticks == v
    &&& forall|i: int| 0 <= i < notes.len() && notes[i].recording_clip_id == Some(id) ==> v <= notes[i].start_ticks
}

/// The clip's notes include a note starting at `v` and none starts later.
pub open spec fn is_last_note_start(notes: Seq<MidiNote>, id: u64, v: int) -> bool {
    &&& exists|i: int| 0 <= i < notes.len() && notes[i].recording_clip_id == Some(id) && notes[i].start_ticks == v
    &&& forall|i: int| 0 <= i < notes.len() && notes[i].recording_clip_id == Some(id) ==> notes[i].start_ticks <= v
}

/// End tick of a note, capped at the largest tick.
pub open spec fn note_end(n: MidiNote) -> int {
    if n.start_ticks + n.length_ticks > u64::MAX { u64::MAX as int } else { n.start_ticks + n.length_ticks }
}

/// The clip's notes include a note ending at `v` and none ends later.
pub open spec fn is_last_note_end(notes: Seq<MidiNote>, id: u64, v: int) -> bool {
    &&& exists|i: int| 0 <= i < notes.len() && notes[i].recording_clip_id == Some(id) && note_end(notes[i]) == v
    &&& forall|i: int| 0 <= i < notes.len() && notes[i].recording_clip_id == Some(id) ==> note_end(notes[i]) <= v
}

pub open spec fn has_notes(notes: Seq<MidiNote>, id: u64) -> bool {
    exists|i: int| 0 <= i < notes.len() && notes[i].recording_clip_id == Some(id)
}

/// Extreme note positions of a clip: first start, last start and last end.
pub fn clip_note_bounds(notes: &Vec<MidiNote>, id: u64) -> (r: Option<(u64, u64, u64)>)
    ensures
        r is None <==> !has_notes(notes@, id),
        r matches Some((first, last_start, last_end)) ==> {
            &&& is_first_note_start(notes@, id, first as int)
            &&& is_last_note_start(notes@, id, last_start as int)
            &&& is_last_note_end(notes@, id, last_end as int)
        },
{
    let mut found: Option<(u64, u64, u64)> = None;
    let mut i: usize = 0;
    while i < notes.len()
        invariant
            i <= notes@.len(),
            found is None <==> !has_notes(notes@.take(i as int), id),
            found matches Some((first, last_start, last_end)) ==> {
                &&& is_first_note_start(notes@.take(i as int), id, first as int)
                &&& is_last_note_start(notes@.take(i as int), id, last_start as int)
                &&& is_last_note_end(notes@.take(i as int), id, last_end as int)
            },
        decreases notes@.len() - i,
    {
        let note = notes[i];
        let ghost prefix = notes@.take(i as int);
        let ghost next = notes@.take(i as int + 1);
        assert(next == prefix.push(note));
        if note.recording_clip_id == Some(id) {
            let end = if note.start_ticks <= u64::MAX - note.length_ticks { note.start_ticks + note.length_ticks } else { u64::MAX };
            assert(end == note_end(note));
            found = match found {
                None => Some((note.start_ticks, note.start_ticks, end)),
                Some((first, last_start, last_end)) => Some((
                    if note.start_ticks < first { note.start_ticks } else { first },
                    if note.start_ticks > last_start { note.start_ticks } else { last_start },
                    if end > last_end { end } else { last_end },
                )),
            };
            proof {
                assert(next[i as int] == note);
                assert forall|k: int| 0 <= k < prefix.len() implies next[k] == prefix[k] by {}
            }
        } else {
            proof {
                assert forall|k: int| 0 <= k < prefix.len() implies next[k] == prefix[k] by {}
            }
        }
        i = i + 1;
    }
    assert(notes@.take(notes@.len() as int) == notes@);
    found
}

/// Start of the source range: the clip start, or the first note of the clip when chosen and
/// the clip has notes.
pub open spec fn source_start(clip: RecordingClip, notes: Seq<MidiNote>, mode: ClipAlignSourceStartMode, v: int) -> bool {
    if mode == ClipAlignSourceStartMode::FirstNote && has_notes(notes, clip.id) {
        is_first_note_start(notes, clip.id, v)
    } else {
        v == clip.region.start_ticks
    }
}

/// End of the source range: the clip end, the start of the last note or the end of the last
/// note; the clip end when the clip has no notes.
pub open spec fn source_end(clip: RecordingClip, notes: Seq<MidiNote>, mode: ClipAlignSourceEndMode, v: int) -> bool {
    if mode == ClipAlignSourceEndMode::StartOfLastNote && has_notes(notes, clip.id) {
        is_last_note_start(notes, clip.id, v)
    } else if mode == ClipAlignSourceEndMode::LastNoteEnd && has_notes(notes, clip.id) {
        is_last_note_end(notes, clip.id, v)
    } else {
        v == (if clip_end(clip) > u64::MAX { u64::MAX as int } else { clip_end(clip) })
    }
}

/// The source range `(start, end)` of a clip under the chosen rules.
pub fn source_range(clip: &RecordingClip, notes: &Vec<MidiNote>, settings: ClipAlignSettings) -> (r: (u64, u64))
    ensures
        source_start(*clip, notes@, settings.source_start_mode, r.0 as int),
        source_end(*clip, notes@, settings.source_end_mode, r.1 as int),
{
    let clip_end_ticks = if clip.region.start_ticks <= u64::MAX - clip.region.length_ticks {
        clip.region.start_ticks + clip.region.length_ticks
    } else {
        u64::MAX
    };
    match clip_note_bounds(notes, clip.id) {
        None => (clip.region.start_ticks, clip_end_ticks),
        Some((first, last_start, last_end)) => {
            let start = match settings.source_start_mode {
                ClipAlignSourceStartMode::ClipStart => clip.region.start_ticks,
                ClipAlignSourceStartMode::FirstNote => first,
            };
            let end = match settings.source_end_mode {
                ClipAlignSourceEndMode::ClipEnd => clip_end_ticks,
                ClipAlignSourceEndMode::StartOfLastNote => last_start,
                ClipAlignSourceEndMode::LastNoteEnd => last_end,
            };
            (start, end)
        },
    }
}

/// Ticks in a number of 4/4 bars.
pub open spec fn bar_ticks(bars: nat, ppqn: nat) -> nat {
    bars * 4 * ppqn
}

/// Length in ticks of a target.
pub fn target_length_ticks(target: ClipAlignTargetLength, ppqn: u32) -> (r: u64)
    ensures
        r == bar_ticks(target.spec_bars(), ppqn as nat),
{
    let bars = target.bars();
    assert(bars * 4 * (ppqn as u64) <= 16 * 4 * 0xffff_ffffu64) by (nonlinear_arith)
        requires bars <= 16;
    bars * 4 * (ppqn as u64)
}

/// Position of `t` after fitting `[s, s + source)` onto `[dest, dest + target)`; ticks before
/// the source start go to the destination start and results stop at the largest tick.
pub open spec fn fit_tick(t: int, s: int, source: int, target: int, dest: int) -> int {
    let raw = if t <= s { dest } else { dest + ((t - s) * target) / source };
    if raw > u64::MAX { u64::MAX as int } else { raw }
}

/// The fit keeps the order of ticks and sends the source range onto the target range.
pub proof fn lemma_fit_monotone(t1: int, t2: int, s: int, source: int, target: int, dest: int)
    requires
        t1 <= t2,
        source > 0,
        target >= 0,
        dest >= 0,
    ensures
        fit_tick(t1, s, source, target, dest) <= fit_tick(t2, s, source, target, dest),
        fit_tick(s, s, source, target, dest) == (if dest > u64::MAX { u64::MAX as int } else { dest }),
        dest + target <= u64::MAX ==> fit_tick(s + source, s, source, target, dest) == dest + target,
{
    if t1 > s {
        assert((t1 - s) * target <= (t2 - s) * target) by (nonlinear_arith)
            requires t1 - s <= t2 - s, target >= 0;
        vstd::arithmetic::div_mod::lemma_div_is_ordered((t1 - s) * target, (t2 - s) * target, source);
    } else if t2 > s {
        assert((t2 - s) * target >= 0) by (nonlinear_arith)
            requires t2 - s > 0, target >= 0;
        vstd::arithmetic::div_mod::lemma_div_pos_is_pos((t2 - s) * target, source);
    }
    assert((source * target) / source == target) by (nonlinear_arith)
        requires source > 0;
    assert(source * target == (s + source - s) * target);
}

/// Computes `fit_tick` on machine integers.
pub fn fit_position(t: u64, s: u64, source: u64, target: u64, dest: u64) -> (r: u64)
    requires
        source > 0,
    ensures
        r == fit_tick(t as int, s as int, source as int, target as int, dest as int),
{
    if t <= s {
        dest
    } else {
        let offset = t - s;
        assert((offset as u128) * (target as u128) <= 0xffff_ffff_ffff_ffffu128 * 0xffff_ffff_ffff_ffffu128) by (nonlinear_arith)
            requires offset <= 0xffff_ffff_ffff_ffffu64, target <= 0xffff_ffff_ffff_ffffu64;
        let scaled: u128 = (offset as u128) * (target as u128);
        assert(scaled == (t - s) * target);
        let moved: u128 = scaled / (source as u128);
        assert(moved <= scaled) by (nonlinear_arith)
            requires moved == scaled as int / source as int, source > 0, scaled >= 0;
        assert(moved <= scaled);
        assert(scaled / 2 <= 0xffff_ffff_ffff_ffffu128 * 0xffff_ffff_ffff_ffffu128);
        let total: u128 = if moved > u64::MAX as u128 { u64::MAX as u128 + 1 } else { moved + dest as u128 };
        if total > u64::MAX as u128 {
            u64::MAX
        } else {
            total as u64
        }
    }
}

/// Length of a note after stretching by `target / source`, at least one tick.
pub open spec fn fit_length(len: int, source: int, target: int) -> int {
    let raw = (len * target) / source;
    if raw < 1 { 1 } else if raw > u64::MAX { u64::MAX as int } else { raw }
}

pub fn fit_note_length(len: u64, source: u64, target: u64) -> (r: u64)
    requires
        source > 0,
    ensures
        r == fit_length(len as int, source as int, target as int),
{
    assert((len as u128) * (target as u128) <= 0xffff_ffff_ffff_ffffu128 * 0xffff_ffff_ffff_ffffu128) by (nonlinear_arith)
        requires len <= 0xffff_ffff_ffff_ffffu64, target <= 0xffff_ffff_ffff_ffffu64;
    let scaled: u128 = (len as u128) * (target as u128);
    let raw: u128 = scaled / (source as u128);
    assert(raw <= scaled) by (nonlinear_arith)
        requires raw == scaled as int / source as int, source > 0, scaled >= 0;
    if raw < 1 {
        1
    } else if raw > u64::MAX as u128 {
        u64::MAX
    } else {
        raw as u64
    }
}

/// Every target length, shortest first.
pub open spec fn target_at(i: int) -> ClipAlignTargetLength {
    if i <= 0 { ClipAlignTargetLength::Bar1 } else if i == 1 { ClipAlignTargetLength::Bar2 }
    else if i == 2 { ClipAlignTargetLength::Bar4 } else if i == 3 { ClipAlignTargetLength::Bar8 }
    else { ClipAlignTargetLength::Bar16 }
}

pub open spec fn abs_diff(a: int, b: int) -> int {
    if a >= b { a - b } else { b - a }
}

/// `t` is the target whose length is nearest to `len`, the shorter one on ties.
pub open spec fn is_nearest_target(len: int, ppqn: nat, t: ClipAlignTargetLength) -> bool {
    forall|i: int| 0 <= i < 5 ==> {
        let o = #[trigger] target_at(i);
        let dt = abs_diff(bar_ticks(t.spec_bars(), ppqn) as int, len);
        let dof = abs_diff(bar_ticks(o.spec_bars(), ppqn) as int, len);
        dt < dof || (dt == dof && t.spec_bars() <= o.spec_bars())
    }
}

fn target_of(i: usize) -> (r: ClipAlignTargetLength)
    ensures
        r == target_at(i as int),
{
    if i == 0 { ClipAlignTargetLength::Bar1 } else if i == 1 { ClipAlignTargetLength::Bar2 }
    else if i == 2 { ClipAlignTargetLength::Bar4 } else if i == 3 { ClipAlignTargetLength::Bar8 }
    else { ClipAlignTargetLength::Bar16 }
}

/// The target length nearest to `len` ticks.
pub fn nearest_target_length(len: u64, ppqn: u32) -> (r: ClipAlignTargetLength)
    ensures
        is_nearest_target(len as int, ppqn as nat, r),
{
    let mut best = ClipAlignTargetLength::Bar1;
    let mut best_diff: u64 = {
        let t = target_length_ticks(best, ppqn);
        if t >= len { t - len } else { len - t }
    };
    let mut i: usize = 1;
    assert(best == target_at(0));
    while i < 5
        invariant
            1 <= i <= 5,
            best_diff == abs_diff(bar_ticks(best.spec_bars(), ppqn as nat) as int, len as int),
            exists|k: int| 0 <= k < i && best == target_at(k),
            forall|k: int| 0 <= k < i ==> {
                let o = #[trigger] target_at(k);
                let dof = abs_diff(bar_ticks(o.spec_bars(), ppqn as nat) as int, len as int);
                best_diff < dof || (best_diff == dof && best.spec_bars() <= o.spec_bars())
            },
        decreases 5 - i,
    {
        let candidate = target_of(i);
        let t = target_length_ticks(candidate, ppqn);
        let diff = if t >= len { t - len } else { len - t };
        proof {
            assert forall|k: int| 0 <= k < i implies target_at(k).spec_bars() <= candidate.spec_bars() by {}
        }
        if diff < best_diff {
            best = candidate;
            best_diff = diff;
        }
        i = i + 1;
    }
    best
}

/// Clip length in ticks at the current tempo for a clip captured at another tempo.
pub open spec fn tempo_adjusted_length(len: int, capture_bpm: int, tempo_bpm: int) -> int {
    let raw = if capture_bpm == 0 { len } else { (len * tempo_bpm) / capture_bpm };
    if raw > u64::MAX { u64::MAX as int } else { raw }
}

/// `r` is what `suggested_target_length` gives for the clip: the target nearest to its source
/// length measured at the current tempo, or nothing for an empty source range.
pub open spec fn target_suggested(clip: RecordingClip, notes: Seq<MidiNote>, settings: ClipAlignSettings, transport: Transport, r: Option<ClipAlignTargetLength>) -> bool {
    &&& r matches Some(t) ==> exists|s: int, e: int| {
        &&& source_start(clip, notes, settings.source_start_mode, s)
        &&& source_end(clip, notes, settings.source_end_mode, e)
        &&& e > s
        &&& is_nearest_target(tempo_adjusted_length(e - s, clip.native_capture_tempo_bpm as int, transport.tempo_bpm as int), transport.ppqn as nat, t)
    }
    &&& r is None ==> exists|s: int, e: int| {
        &&& source_start(clip, notes, settings.source_start_mode, s)
        &&& source_end(clip, notes, settings.source_end_mode, e)
        &&& e <= s
    }
}

/// The target suggested for a clip: the one nearest to its source range, measured at the
/// current tempo. No suggestion for an empty source range.
pub fn suggested_target_length(clip: &RecordingClip, notes: &Vec<MidiNote>, settings: ClipAlignSettings, transport: &Transport) -> (r: Option<ClipAlignTargetLength>)
    ensures
        target_suggested(*clip, notes@, settings, *transport, r),
{
    let (start, end) = source_range(clip, notes, settings);
    if end <= start {
        assert(source_start(*clip, notes@, settings.source_start_mode, start as int));
        assert(source_end(*clip, notes@, settings.source_end_mode, end as int));
        return None;
    }
    assert(source_start(*clip, notes@, settings.source_start_mode, start as int));
    assert(source_end(*clip, notes@, settings.source_end_mode, end as int));
    let len = end - start;
    let capture = clip.native_capture_tempo_bpm as u64;
    let adjusted: u64 = if capture == 0 {
        len
    } else {
        assert((len as u128) * (transport.tempo_bpm as u128) <= 0xffff_ffff_ffff_ffffu128 * 0xffffu128) by (nonlinear_arith)
            requires len <= 0xffff_ffff_ffff_ffffu64, transport.tempo_bpm <= 0xffffu16;
        let scaled: u128 = (len as u128) * (transport.tempo_bpm as u128) / (capture as u128);
        assert(scaled <= 0xffff_ffff_ffff_ffffu128 * 0xffffu128);
        if scaled > u64::MAX as u128 { u64::MAX } else { scaled as u64 }
    };
    let t = nearest_target_length(adjusted, transport.ppqn);
    assert(source_start(*clip, notes@, settings.source_start_mode, start as int));
    assert(source_end(*clip, notes@, settings.source_end_mode, end as int));
    Some(t)
}

/// Tempo at which a clip stretched from `source` to `target` ticks keeps its real-time length.
pub open spec fn matched_tempo(tempo: int, source: int, target: int) -> int {
    (tempo * target) / source
}

/// The preview for a source range of `source` ticks fitted to `target` ticks.
pub open spec fn spec_preview(source: int, target: int, tempo: int, mode: ClipAlignApplyMode, tempo_commit_allowed: bool) -> ClipAlignPreview {
    let needed = if source > 0 { matched_tempo(tempo, source, target) } else { 0 };
    let blocked = if source <= 0 {
        Some(ClipAlignBlock::EmptySource)
    } else if mode == ClipAlignApplyMode::FitAndTempo && (needed < MIN_TEMPO_BPM || needed > MAX_TEMPO_BPM) {
        Some(ClipAlignBlock::TempoOutOfRange)
    } else {
        None
    };
    ClipAlignPreview {
        source_length_ticks: if source > 0 { source as u64 } else { 0 },
        target_length_ticks: target as u64,
        tempo_preview_bpm: if mode == ClipAlignApplyMode::FitAndTempo && blocked is None { Some(needed as u16) } else { None },
        tempo_locked: mode == ClipAlignApplyMode::FitAndTempo && !tempo_commit_allowed,
        blocked_reason: blocked,
    }
}

/// Computes `spec_preview`.
pub fn preview_for(source: u64, target: u64, tempo: u16, mode: ClipAlignApplyMode, tempo_commit_allowed: bool) -> (r: ClipAlignPreview)
    ensures
        r == spec_preview(source as int, target as int, tempo as int, mode, tempo_commit_allowed),
{
    if source == 0 {
        return ClipAlignPreview {
            source_length_ticks: 0,
            target_length_ticks: target,
            tempo_preview_bpm: None,
            tempo_locked: mode == ClipAlignApplyMode::FitAndTempo && !tempo_commit_allowed,
            blocked_reason: Some(ClipAlignBlock::EmptySource),
        };
    }
    assert((tempo as u128) * (target as u128) <= 0xffffu128 * 0xffff_ffff_ffff_ffffu128) by (nonlinear_arith)
        requires tempo <= 0xffffu16, target <= 0xffff_ffff_ffff_ffffu64;
    let needed: u128 = (tempo as u128) * (target as u128) / (source as u128);
    let fits = needed >= MIN_TEMPO_BPM as u128 && needed <= MAX_TEMPO_BPM as u128;
    let tempo_mode = mode == ClipAlignApplyMode::FitAndTempo;
    let blocked = if tempo_mode && !fits { Some(ClipAlignBlock::TempoOutOfRange) } else { None };
    ClipAlignPreview {
        source_length_ticks: source,
        target_length_ticks: target,
        tempo_preview_bpm: if tempo_mode && fits { Some(needed as u16) } else { None },
        tempo_locked: tempo_mode && !tempo_commit_allowed,
        blocked_reason: blocked,
    }
}

/// Position of the clip with identifier `id` on the track.
pub fn clip_index(track: &Track, id: u64) -> (r: Option<usize>)
    ensures
        r matches Some(i) ==> i < track.recording_clips@.len() && track.recording_clips@[i as int].id == id,
        r is None ==> forall|i: int| 0 <= i < track.recording_clips@.len() ==> track.recording_clips@[i].id != id,
{
    let mut i: usize = 0;
    while i < track.recording_clips.len()
        invariant
            i <= track.recording_clips@.len(),
            forall|j: int| 0 <= j < i ==> track.recording_clips@[j].id != id,
        decreases track.recording_clips@.len() - i,
    {
        if track.recording_clips[i].id == id {
            return Some(i);
        }
        i = i + 1;
    }
    None
}

/// The clip's source range under the settings has the given bounds.
pub open spec fn has_source_range(track: Track, i: int, settings: ClipAlignSettings, s: int, e: int) -> bool {
    &&& source_start(track.recording_clips@[i], track.midi_notes@, settings.source_start_mode, s)
    &&& source_end(track.recording_clips@[i], track.midi_notes@, settings.source_end_mode, e)
}

/// `r` is the preview of fitting clip `clip_id` of the track with the settings; none when the
/// track has no such clip.
pub open spec fn clip_previewed(track: Track, transport: Transport, clip_id: u64, settings: ClipAlignSettings, tempo_commit_allowed: bool, r: Option<ClipAlignPreview>) -> bool {
    &&& r is None <==> forall|i: int| 0 <= i < track.recording_clips@.len() ==> track.recording_clips@[i].id != clip_id
    &&& r matches Some(p) ==> exists|i: int, s: int, e: int| {
        &&& 0 <= i < track.recording_clips@.len()
        &&& track.recording_clips@[i].id == clip_id
        &&& #[trigger] has_source_range(track, i, settings, s, e)
        &&& p == spec_preview(if e > s { e - s } else { 0 }, bar_ticks(settings.target_length.spec_bars(), transport.ppqn as nat) as int,
            transport.tempo_bpm as int, settings.apply_mode, tempo_commit_allowed)
    }
}

/// What fitting clip `clip_id` of the track with the given settings would do; `None` when the
/// track has no such clip.
pub fn preview_clip_align(track: &Track, transport: &Transport, clip_id: u64, settings: ClipAlignSettings, tempo_commit_allowed: bool) -> (r: Option<ClipAlignPreview>)
    ensures
        clip_previewed(*track, *transport, clip_id, settings, tempo_commit_allowed, r),
{
    let index = match clip_index(track, clip_id) {
        Some(i) => i,
        None => return None,
    };
    let (start, end) = source_range(&track.recording_clips[index], &track.midi_notes, settings);
    let source = if end > start { end - start } else { 0 };
    let target = target_length_ticks(settings.target_length, transport.ppqn);
    let p = preview_for(source, target, transport.tempo_bpm, settings.apply_mode, tempo_commit_allowed);
    assert(has_source_range(*track, index as int, settings, start as int, end as int));
    Some(p)
}

/// The track after fitting clip `i` from `[s, s + source)` onto `[dest, dest + target)`: its
/// notes are moved and stretched, and the clip and its regions cover the target range.
pub open spec fn fitted_note(n: MidiNote, s: int, source: int, target: int, dest: int) -> MidiNote {
    MidiNote {
        start_ticks: fit_tick(n.start_ticks as int, s, source, target, dest) as u64,
        length_ticks: fit_length(n.length_ticks as int, source, target) as u64,
        ..n
    }
}

/// Fits a clip's notes and regions onto the target range.
fn fit_clip_content(track: &mut Track, i: usize, s: u64, source: u64, target: u64, dest: u64)
    requires
        i < old(track).recording_clips@.len(),
        source > 0,
        old(track).wf(),
    ensures
        final(track).wf(),
        final(track).state == old(track).state,
        final(track).loop_region == old(track).loop_region,
        final(track).midi_fx == old(track).midi_fx,
        final(track).active_take == old(track).active_take,
        final(track).selected_recording_clip_id == old(track).selected_recording_clip_id,
        final(track).recording_view == old(track).recording_view,
        final(track).recording_clip_scroll == old(track).recording_clip_scroll,
        final(track).recording_clips@.len() == old(track).recording_clips@.len(),
        final(track).midi_notes@.len() == old(track).midi_notes@.len(),
        final(track).regions@.len() == old(track).regions@.len(),
        ({
            let id = old(track).recording_clips@[i as int].id;
            &&& final(track).recording_clips@ == old(track).recording_clips@.update(i as int, RecordingClip {
                region: Region { start_ticks: dest, length_ticks: target, recording_clip_id: Some(id) },
                ..old(track).recording_clips@[i as int]
            })
            &&& forall|k: int| 0 <= k < old(track).midi_notes@.len() ==> #[trigger] final(track).midi_notes@[k] == (
                if old(track).midi_notes@[k].recording_clip_id == Some(id) {
                    fitted_note(old(track).midi_notes@[k], s as int, source as int, target as int, dest as int)
                } else {
                    old(track).midi_notes@[k]
                })
            &&& forall|k: int| 0 <= k < old(track).regions@.len() ==> #[trigger] final(track).regions@[k] == (
                if old(track).regions@[k].recording_clip_id == Some(id) {
                    Region { start_ticks: dest, length_ticks: target, recording_clip_id: Some(id) }
                } else {
                    old(track).regions@[k]
                })
        }),
{
    let id = track.recording_clips[i].id;
    let mut k: usize = 0;
    while k < track.midi_notes.len()
        invariant
            k <= track.midi_notes@.len(),
            source > 0,
            track.midi_notes@.len() == old(track).midi_notes@.len(),
            forall|j: int| k <= j < track.midi_notes@.len() ==> track.midi_notes@[j] == old(track).midi_notes@[j],
            forall|j: int| 0 <= j < k ==> #[trigger] track.midi_notes@[j] == (
                if old(track).midi_notes@[j].recording_clip_id == Some(id) {
                    fitted_note(old(track).midi_notes@[j], s as int, source as int, target as int, dest as int)
                } else {
                    old(track).midi_notes@[j]
                }),
            track.recording_clips == old(track).recording_clips,
            track.regions == old(track).regions,
            track.state == old(track).state,
            track.loop_region == old(track).loop_region,
            track.midi_fx == old(track).midi_fx,
            track.active_take == old(track).active_take,
            track.selected_recording_clip_id == old(track).selected_recording_clip_id,
            track.recording_view == old(track).recording_view,
            track.recording_clip_scroll == old(track).recording_clip_scroll,
            i < old(track).recording_clips@.len(),
            id == old(track).recording_clips@[i as int].id,
        decreases track.midi_notes@.len() - k,
    {
        let note = track.midi_notes[k];
        if note.recording_clip_id == Some(id) {
            let start = fit_position(note.start_ticks, s, source, target, dest);
            let length = fit_note_length(note.length_ticks, source, target);
            track.midi_notes.set(k, MidiNote { start_ticks: start, length_ticks: length, ..note });
        }
        k = k + 1;
    }
    let mut r: usize = 0;
    while r < track.regions.len()
        invariant
            r <= track.regions@.len(),
            track.regions@.len() == old(track).regions@.len(),
            forall|j: int| r <= j < track.regions@.len() ==> track.regions@[j] == old(track).regions@[j],
            forall|j: int| 0 <= j < r ==> #[trigger] track.regions@[j] == (
                if old(track).regions@[j].recording_clip_id == Some(id) {
                    Region { start_ticks: dest, length_ticks: target, recording_clip_id: Some(id) }
                } else {
                    old(track).regions@[j]
                }),
            track.recording_clips == old(track).recording_clips,
            track.state == old(track).state,
            track.loop_region == old(track).loop_region,
            track.midi_fx == old(track).midi_fx,
            track.active_take == old(track).active_take,
            track.selected_recording_clip_id == old(track).selected_recording_clip_id,
            track.recording_view == old(track).recording_view,
            track.recording_clip_scroll == old(track).recording_clip_scroll,
            track.midi_notes@.len() == old(track).midi_notes@.len(),
            i < old(track).recording_clips@.len(),
            id == old(track).recording_clips@[i as int].id,
            forall|j: int| 0 <= j < track.midi_notes@.len() ==> #[trigger] track.midi_notes@[j] == (
                if old(track).midi_notes@[j].recording_clip_id == Some(id) {
                    fitted_note(old(track).midi_notes@[j], s as int, source as int, target as int, dest as int)
                } else {
                    old(track).midi_notes@[j]
                }),
        decreases track.regions@.len() - r,
    {
        if track.regions[r].recording_clip_id == Some(id) {
            track.regions.set(r, Region { start_ticks: dest, length_ticks: target, recording_clip_id: Some(id) });
        }
        r = r + 1;
    }
    let clip = track.recording_clips[i];
    track.recording_clips.set(i, RecordingClip { region: Region { start_ticks: dest, length_ticks: target, recording_clip_id: Some(id) }, ..clip });
    assert(track.recording_clips@ =~= old(track).recording_clips@.update(i as int, RecordingClip {
        region: Region { start_ticks: dest, length_ticks: target, recording_clip_id: Some(id) },
        ..old(track).recording_clips@[i as int]
    }));
    proof {
        let clips = track.recording_clips@;
        assert forall|a: int, b: int| 0 <= a < clips.len() && 0 <= b < clips.len() && a != b implies clips[a].id != clips[b].id by {
            assert(clips[a].id == old(track).recording_clips@[a].id);
            assert(clips[b].id == old(track).recording_clips@[b].id);
        }
    }
}

/// Effect of `apply_clip_align`: on success the clip, its regions and its notes are fitted
/// onto `[destination_start, destination_start + target)` and the tempo to commit is
/// returned; otherwise the track is left as it was and the reason is returned.
pub open spec fn clip_align_applied(
    before: Track,
    after: Track,
    transport: Transport,
    clip_id: u64,
    settings: ClipAlignSettings,
    destination_start: u64,
    tempo_commit_allowed: bool,
    r: Result<Option<u16>, ClipAlignBlock>,
) -> bool {
    &&& after.wf()
    &&& after.state == before.state
    &&& after.loop_region == before.loop_region
    &&& after.midi_fx == before.midi_fx
    &&& after.active_take == before.active_take
    &&& after.selected_recording_clip_id == before.selected_recording_clip_id
    &&& after.recording_view == before.recording_view
    &&& after.recording_clip_scroll == before.recording_clip_scroll
    &&& after.recording_clips@.len() == before.recording_clips@.len()
    &&& r is Err ==> after == before
    &&& r == Err::<Option<u16>, ClipAlignBlock>(ClipAlignBlock::MissingClip)
        <==> forall|i: int| 0 <= i < before.recording_clips@.len() ==> before.recording_clips@[i].id != clip_id
    &&& r is Ok ==> exists|i: int, s: int, e: int| {
        &&& 0 <= i < before.recording_clips@.len()
        &&& before.recording_clips@[i].id == clip_id
        &&& #[trigger] has_source_range(before, i, settings, s, e)
        &&& e > s
        &&& {
            let target = bar_ticks(settings.target_length.spec_bars(), transport.ppqn as nat) as int;
            let p = spec_preview(e - s, target, transport.tempo_bpm as int, settings.apply_mode, tempo_commit_allowed);
            let fitted = Region { start_ticks: destination_start, length_ticks: target as u64, recording_clip_id: Some(clip_id) };
            &&& p.blocked_reason is None
            &&& after.recording_clips@ == before.recording_clips@.update(i, RecordingClip { region: fitted, ..before.recording_clips@[i] })
            &&& after.midi_notes@.len() == before.midi_notes@.len()
            &&& forall|k: int| 0 <= k < before.midi_notes@.len() ==> #[trigger] after.midi_notes@[k] == (
                if before.midi_notes@[k].recording_clip_id == Some(clip_id) {
                    fitted_note(before.midi_notes@[k], s, e - s, target, destination_start as int)
                } else {
                    before.midi_notes@[k]
                })
            &&& after.regions@.len() == before.regions@.len()
            &&& forall|k: int| 0 <= k < before.regions@.len() ==> #[trigger] after.regions@[k] == (
                if before.regions@[k].recording_clip_id == Some(clip_id) { fitted } else { before.regions@[k] })
            &&& r == Ok::<Option<u16>, ClipAlignBlock>(if tempo_commit_allowed { p.tempo_preview_bpm } else { None })
        }
    }
    &&& r is Err && r != Err::<Option<u16>, ClipAlignBlock>(ClipAlignBlock::MissingClip) ==> exists|i: int, s: int, e: int| {
        &&& 0 <= i < before.recording_clips@.len()
        &&& before.recording_clips@[i].id == clip_id
        &&& #[trigger] has_source_range(before, i, settings, s, e)
        &&& r == Err::<Option<u16>, ClipAlignBlock>(spec_preview(if e > s { e - s } else { 0 },
            bar_ticks(settings.target_length.spec_bars(), transport.ppqn as nat) as int,
            transport.tempo_bpm as int, settings.apply_mode, tempo_commit_allowed).blocked_reason->0)
    }
}

/// Fits clip `clip_id` of the track onto `[destination_start, destination_start + target)`.
/// Returns the tempo to commit, if the fit changes the tempo, or why nothing was applied.
pub fn apply_clip_align(
    track: &mut Track,
    transport: &Transport,
    clip_id: u64,
    settings: ClipAlignSettings,
    destination_start: u64,
    tempo_commit_allowed: bool,
) -> (r: Result<Option<u16>, ClipAlignBlock>)
    requires
        old(track).wf(),
    ensures
        clip_align_applied(*old(track), *final(track), *transport, clip_id, settings, destination_start, tempo_commit_allowed, r),
{
    let index = match clip_index(track, clip_id) {
        Some(i) => i,
        None => return Err(ClipAlignBlock::MissingClip),
    };
    let (start, end) = source_range(&track.recording_clips[index], &track.midi_notes, settings);
    let source = if end > start { end - start } else { 0 };
    let target = target_length_ticks(settings.target_length, transport.ppqn);
    let preview = preview_for(source, target, transport.tempo_bpm, settings.apply_mode, tempo_commit_allowed);
    assert(has_source_range(*track, index as int, settings, start as int, end as int));
    match preview.blocked_reason {
        Some(block) => Err(block),
        None => {
            fit_clip_content(track, index, start, source, target, destination_start);
            Ok(if tempo_commit_allowed { preview.tempo_preview_bpm } else { None })
        },
    }
}

} // verus!
