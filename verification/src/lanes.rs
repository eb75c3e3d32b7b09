//! The stacked recording view: which committed clips get a lane, where the pass in progress
//! shows, the clip scroll bar, and the small controls in a track's label strip.
use vstd::prelude::*;
use crate::app::{App, TimelineFlow};
use crate::geometry::{Rect, rect_contains};
use crate::project::{MidiNote, RecordingClip, RecordingView, Track, clip_position, clip_ids_unique};

verus! {

/// Number of stored-loop slots per track.
pub const STORED_LOOP_SLOT_COUNT: usize = 8;

/// Narrowest lane of the stacked view when time runs down the columns.
pub const MIN_LANE_WIDTH: u32 = 15;

/// Lowest lane of the stacked view when time runs across rows.
pub const MIN_LANE_HEIGHT: u32 = 26;

/// Gap between two lanes.
pub const LANE_GAP: u32 = 2;

/// The lanes shown in the stacked view. Lanes are numbered over the committed clips and,
/// while a pass is recorded, one preview lane after them; `start` is the first lane shown.
#[derive(Debug, Clone, Copy, PartialEq, Eq, Structural)]
pub struct RecordingLaneWindow {
    pub start: usize,
    pub visible_total: usize,
    pub committed_start: usize,
    pub committed_end: usize,
    pub visible_committed: usize,
    pub show_preview: bool,
}

pub open spec fn min_int(a: int, b: int) -> int {
    if a <= b { a } else { b }
}

pub open spec fn max_int(a: int, b: int) -> int {
    if a >= b { a } else { b }
}

/// The window over `committed` clips (plus a preview lane when `preview`) that shows at most
/// `capacity` lanes, starts at `scroll` where it can, and always shows the preview lane.
pub open spec fn lane_window(committed: nat, preview: bool, scroll: nat, capacity: nat) -> RecordingLaneWindow {
    let cap = max_int(capacity as int, 1);
    let total = committed + if preview { 1int } else { 0int };
    if total == 0 {
        RecordingLaneWindow { start: 0, visible_total: 0, committed_start: 0, committed_end: 0, visible_committed: 0, show_preview: false }
    } else {
        let visible = min_int(cap, total);
        let max_start = total - visible;
        let start = if preview { max_start } else { min_int(scroll as int, max_start) };
        let c_start = min_int(start, committed as int);
        let c_end = min_int(start + visible, committed as int);
        RecordingLaneWindow {
            start: start as usize,
            visible_total: visible as usize,
            committed_start: c_start as usize,
            committed_end: c_end as usize,
            visible_committed: (c_end - c_start) as usize,
            show_preview: preview,
        }
    }
}

/// The scroll offset after bringing the selection into view: clamped to the lanes that
/// exist, pinned to the end while a pass is recorded, and moved just far enough to show
/// the selected clip otherwise.
pub open spec fn synced_scroll(clips: Seq<RecordingClip>, selected: Option<u64>, preview: bool, scroll: nat, capacity: nat) -> nat {
    let cap = max_int(capacity as int, 1);
    let total = clips.len() + if preview { 1int } else { 0int };
    if total == 0 {
        0
    } else {
        let visible = min_int(cap, total);
        let max_start = total - visible;
        let clamped = if preview { max_start } else { min_int(scroll as int, max_start) };
        let result = if preview {
            clamped
        } else {
            match selected {
                None => clamped,
                Some(id) => match clip_position(clips, id) {
                    None => clamped,
                    Some(p) => if p < clamped {
                        p
                    } else if p >= clamped + visible {
                        p + 1 - visible
                    } else {
                        clamped
                    },
                },
            }
        };
        result as nat
    }
}

impl App {
    /// `recording_lane_window` as a spec function.
    pub open spec fn spec_lane_window(self, track: Track, total_capacity: nat) -> RecordingLaneWindow {
        lane_window(track.recording_clips@.len(), track.active_take is Some, track.recording_clip_scroll as nat, total_capacity)
    }

    /// `recording_lane_capacity` as a spec function.
    pub open spec fn spec_lane_capacity(self, content_rect: Rect) -> nat {
        max_int(
            (match self.timeline_flow {
                TimelineFlow::DownwardColumns => (content_rect.w + LANE_GAP) / ((MIN_LANE_WIDTH + LANE_GAP) as int),
                TimelineFlow::AcrossRows => (content_rect.h + LANE_GAP) / ((MIN_LANE_HEIGHT + LANE_GAP) as int),
            }),
            1,
        ) as nat
    }

    /// The lanes shown for `track` when `total_capacity` lanes fit.
    pub fn recording_lane_window(&self, track: &Track, total_capacity: usize) -> (r: RecordingLaneWindow)
        requires
            track.recording_clips@.len() < usize::MAX,
        ensures
            r == lane_window(track.recording_clips@.len(), track.active_take is Some, track.recording_clip_scroll as nat, total_capacity as nat),
            r.visible_total <= max_int(total_capacity as int, 1),
            r.start + r.visible_total == track.recording_clips@.len() + (if track.active_take is Some { 1int } else { 0int })
                || track.active_take is None,
            r.committed_start <= r.committed_end <= track.recording_clips@.len(),
            r.visible_committed + (if r.show_preview { 1int } else { 0int }) == r.visible_total,
            r.show_preview == (track.active_take is Some),
    {
        let total_capacity = if total_capacity > 1 { total_capacity } else { 1 };
        let committed_len = track.recording_clips.len();
        let preview = track.active_take.is_some();
        let total_lanes = if preview { committed_len + 1 } else { committed_len };
        if total_lanes == 0 {
            return RecordingLaneWindow {
                start: 0,
                visible_total: 0,
                committed_start: 0,
                committed_end: 0,
                visible_committed: 0,
                show_preview: false,
            };
        }
        let visible_total = if total_capacity < total_lanes { total_capacity } else { total_lanes };
        let max_start = total_lanes - visible_total;
        let mut start = if track.recording_clip_scroll < max_start { track.recording_clip_scroll } else { max_start };
        if preview {
            let pinned = committed_len + 1 - visible_total;
            if start < pinned {
                start = pinned;
            }
        }
        let end = start + visible_total;
        let committed_start = if start < committed_len { start } else { committed_len };
        let committed_end = if end < committed_len { end } else { committed_len };
        let show_preview = preview && committed_len >= start;
        RecordingLaneWindow {
            start,
            visible_total,
            committed_start,
            committed_end,
            visible_committed: committed_end - committed_start,
            show_preview,
        }
    }

    /// How many stacked lanes fit in `content_rect` at the minimum lane size.
    pub fn recording_lane_capacity(&self, content_rect: Rect) -> (r: usize)
        ensures
            r == max_int(
                (match self.timeline_flow {
                    TimelineFlow::DownwardColumns => (content_rect.w + LANE_GAP) / ((MIN_LANE_WIDTH + LANE_GAP) as int),
                    TimelineFlow::AcrossRows => (content_rect.h + LANE_GAP) / ((MIN_LANE_HEIGHT + LANE_GAP) as int),
                }),
                1,
            ),
            r >= 1,
    {
        let fitting: u64 = match self.timeline_flow {
            TimelineFlow::DownwardColumns => (content_rect.width() as u64 + LANE_GAP as u64) / (MIN_LANE_WIDTH as u64 + LANE_GAP as u64),
            TimelineFlow::AcrossRows => (content_rect.height() as u64 + LANE_GAP as u64) / (MIN_LANE_HEIGHT as u64 + LANE_GAP as u64),
        };
        assert(fitting <= 0xffff_ffff) by {
            assert((content_rect.w + 2) / 17 <= 0xffff_ffff);
            assert((content_rect.h + 2) / 28 <= 0xffff_ffff);
        }
        if fitting > 1 { fitting as usize } else { 1 }
    }

    /// Whether the selected clip of `track` has a clip before it.
    pub fn can_select_previous_recording_clip(&self, track: &Track) -> (r: bool)
        requires
            track.wf(),
        ensures
            r == (track.selected_recording_clip_id matches Some(id) && clip_position(track.recording_clips@, id) matches Some(p) && p > 0),
    {
        match track.selected_recording_clip_index() {
            Some(index) => {
                proof { lemma_found_position(track.recording_clips@, track.selected_recording_clip_id->0, index as int); }
                index > 0
            },
            None => {
                proof { lemma_no_position(track.recording_clips@, track.selected_recording_clip_id); }
                false
            },
        }
    }

    /// Whether the selected clip of `track` has a clip after it.
    pub fn can_select_next_recording_clip(&self, track: &Track) -> (r: bool)
        requires
            track.wf(),
        ensures
            r == (track.selected_recording_clip_id matches Some(id) && clip_position(track.recording_clips@, id) matches Some(p)
                && p + 1 < track.recording_clips@.len()),
    {
        match track.selected_recording_clip_index() {
            Some(index) => {
                proof { lemma_found_position(track.recording_clips@, track.selected_recording_clip_id->0, index as int); }
                index < track.recording_clips.len() - 1
            },
            None => {
                proof { lemma_no_position(track.recording_clips@, track.selected_recording_clip_id); }
                false
            },
        }
    }
}

/// A clip found at `i` with unique-enough lookup is where `clip_position` points.
pub proof fn lemma_found_position(clips: Seq<RecordingClip>, id: u64, i: int)
    requires
        0 <= i < clips.len(),
        clips[i].id == id,
        clip_ids_unique(clips),
    ensures
        clip_position(clips, id) == Some(i),
{
    assert(exists|k: int| 0 <= k < clips.len() && clips[k].id == id);
    let c = choose|k: int| 0 <= k < clips.len() && clips[k].id == id;
    assert(c == i);
}

/// No clip carries the selected identifier.
pub proof fn lemma_no_position(clips: Seq<RecordingClip>, selected: Option<u64>)
    requires
        selected is None || forall|i: int| 0 <= i < clips.len() ==> clips[i].id != selected->0,
    ensures
        selected matches Some(id) ==> clip_position(clips, id) is None,
{
}

/// Width of the scroll thumb for `visible` of `total` lanes on a rail `rail_w` wide.
pub open spec fn thumb_width(rail_w: int, visible: int, total: int) -> int {
    min_int(max_int(rail_w * visible / total, 6), rail_w)
}

/// Left edge of the scroll thumb for a window starting at lane `start`.
pub open spec fn thumb_left(rail_x: int, max_offset: int, start: int, max_start: int) -> int {
    if max_start == 0 { rail_x } else { rail_x + max_offset * start / max_start }
}

impl App {
    /// Brings the selected clip of the active track into view for `total_capacity` lanes.
    pub fn sync_active_track_recording_clip_scroll(&mut self, total_capacity: usize)
        requires
            old(self).wf(),
            old(self).has_active() ==> old(self).active().recording_clips@.len() < usize::MAX,
        ensures
            final(self).wf(),
            !old(self).has_active() ==> final(self).project == old(self).project,
            old(self).has_active() ==> {
                let before = old(self).active();
                let after = final(self).active();
                &&& final(self).project.tracks@ == old(self).project.tracks@.update(old(self).project.active_track_index as int,
                    Track { recording_clip_scroll: after.recording_clip_scroll, ..before })
                &&& after.recording_clip_scroll == synced_scroll(before.recording_clips@, before.selected_recording_clip_id,
                    before.active_take is Some, before.recording_clip_scroll as nat, total_capacity as nat)
            },
            final(self).project.active_track_index == old(self).project.active_track_index,
            final(self).project.transport == old(self).project.transport,
            final(self).project.loop_region == old(self).project.loop_region,
            final(self).page_state == old(self).page_state,
            crate::fx_rack::same_app_fields(*old(self), *final(self)),
    {
        let idx = self.project.active_track_index;
        if idx >= self.project.tracks.len() {
            return;
        }
        let capacity = if total_capacity > 1 { total_capacity } else { 1 };
        let committed = self.project.tracks[idx].recording_clips.len();
        let preview = self.project.tracks[idx].active_take.is_some();
        let total_lanes = if preview { committed + 1 } else { committed };
        if total_lanes == 0 {
            self.project.tracks[idx].recording_clip_scroll = 0;
            proof { self.lemma_scroll_update_keeps_wf(*old(self), idx as int); }
            return;
        }
        let visible = if capacity < total_lanes { capacity } else { total_lanes };
        let max_start = total_lanes - visible;
        let current = self.project.tracks[idx].recording_clip_scroll;
        let mut scroll = if current < max_start { current } else { max_start };
        if preview {
            scroll = max_start;
        } else {
            proof { assert(self.project.tracks@[idx as int].wf()); }
            match self.project.tracks[idx].selected_recording_clip_index() {
                Some(selected) => {
                    proof {
                        lemma_found_position(self.project.tracks@[idx as int].recording_clips@,
                            self.project.tracks@[idx as int].selected_recording_clip_id->0, selected as int);
                    }
                    if selected < scroll {
                        scroll = selected;
                    } else if selected - scroll >= visible {
                        scroll = selected + 1 - visible;
                    }
                },
                None => {
                    proof {
                        lemma_no_position(self.project.tracks@[idx as int].recording_clips@,
                            self.project.tracks@[idx as int].selected_recording_clip_id);
                    }
                },
            }
        }
        self.project.tracks[idx].recording_clip_scroll = scroll;
        proof { self.lemma_scroll_update_keeps_wf(*old(self), idx as int); }
    }

    /// Changing only the clip scroll of one track keeps the app well formed.
    proof fn lemma_scroll_update_keeps_wf(self, before: App, idx: int)
        requires
            before.wf(),
            0 <= idx < before.project.tracks@.len(),
            self.project.tracks@ == before.project.tracks@.update(idx,
                Track { recording_clip_scroll: self.project.tracks@[idx].recording_clip_scroll, ..before.project.tracks@[idx] }),
            self.project.loop_region == before.project.loop_region,
        ensures
            self.wf(),
    {
        assert forall|i: int| 0 <= i < self.project.tracks@.len() implies (#[trigger] self.project.tracks@[i]).wf() by {
            assert(before.project.tracks@[i].wf());
        }
    }

    /// The rail and thumb of the clip scroll bar drawn along the top of `content_rect` in the
    /// stacked view; none when no lanes exist.
    pub fn recording_clip_scrollbar_rects(&self, content_rect: Rect, track: &Track) -> (r: Option<(Rect, Rect)>)
        requires
            content_rect.wf(),
            track.recording_clips@.len() < usize::MAX,
        ensures
            r is None <== (track.recording_view != RecordingView::Stacked
                || track.recording_clips@.len() + (if track.active_take is Some { 1int } else { 0int }) == 0),
            r is Some <== (track.recording_view == RecordingView::Stacked
                && track.recording_clips@.len() + (if track.active_take is Some { 1int } else { 0int }) > 0),
            r matches Some((rail, thumb)) ==> {
                let total = track.recording_clips@.len() + (if track.active_take is Some { 1int } else { 0int });
                let window = self.spec_lane_window(*track, self.spec_lane_capacity(content_rect));
                let visible = window.visible_total as int;
                let tw = thumb_width(rail.w as int, visible, total);
                &&& rail == Rect::made(content_rect.x + 4, content_rect.y as int,
                    if content_rect.w >= 8 { content_rect.w - 8 } else { 0 }, 2)
                &&& thumb == Rect::made(thumb_left(rail.x as int, rail.w - tw, window.start as int, total - visible), rail.y as int, tw, 2)
                &&& rail.x <= thumb.x
                &&& thumb.x + thumb.w <= rail.x + rail.w
            },
    {
        if track.recording_view != RecordingView::Stacked {
            return None;
        }
        let total_lanes = track.recording_clips.len() + if track.active_take.is_some() { 1usize } else { 0usize };
        if total_lanes == 0 {
            return None;
        }
        let window = self.recording_lane_window(track, self.recording_lane_capacity(content_rect));
        let visible_lanes = if window.visible_total < 1 { 1 } else if window.visible_total > total_lanes { total_lanes } else { window.visible_total };
        let start = window.start;
        let rail = Rect::new(
            content_rect.x + 4,
            content_rect.y,
            if content_rect.width() >= 8 { content_rect.width() - 8 } else { 0 },
            2,
        );
        if rail.width() == 0 {
            return None;
        }
        assert((rail.w as int) * (visible_lanes as int) <= 0xffff_ffffint * 0xffff_ffff_ffff_ffffint) by (nonlinear_arith)
            requires rail.w <= 0xffff_ffffint, visible_lanes <= 0xffff_ffff_ffff_ffffint;
        let scaled: u128 = (rail.width() as u128) * (visible_lanes as u128) / (total_lanes as u128);
        proof {
            assert(visible_lanes <= total_lanes);
            assert((rail.w as int) * (visible_lanes as int) <= (rail.w as int) * (total_lanes as int)) by (nonlinear_arith)
                requires visible_lanes <= total_lanes;
            vstd::arithmetic::div_mod::lemma_div_is_ordered((rail.w as int) * (visible_lanes as int), (rail.w as int) * (total_lanes as int), total_lanes as int);
            vstd::arithmetic::div_mod::lemma_div_multiples_vanish(rail.w as int, total_lanes as int);
            assert((rail.w as int) * (total_lanes as int) == (total_lanes as int) * (rail.w as int)) by (nonlinear_arith);
        }
        let widened: u128 = if scaled > 6 { scaled } else { 6 };
        let thumb_width: u32 = if widened < rail.width() as u128 { widened as u32 } else { rail.width() };
        let max_offset: u32 = rail.width() - thumb_width;
        let max_start = total_lanes - visible_lanes;
        let thumb_x: i32 = if max_start == 0 {
            rail.x
        } else {
            assert((max_offset as int) * (start as int) <= 0xffff_ffffint * 0xffff_ffff_ffff_ffffint) by (nonlinear_arith)
                requires max_offset <= 0xffff_ffffint, start <= 0xffff_ffff_ffff_ffffint;
            let offset: u128 = (max_offset as u128) * (start as u128) / (max_start as u128);
            proof {
                assert((max_offset as int) * (start as int) <= (max_offset as int) * (max_start as int)) by (nonlinear_arith)
                    requires start <= max_start;
                vstd::arithmetic::div_mod::lemma_div_is_ordered((max_offset as int) * (start as int), (max_offset as int) * (max_start as int), max_start as int);
                vstd::arithmetic::div_mod::lemma_div_multiples_vanish(max_offset as int, max_start as int);
                assert((max_offset as int) * (max_start as int) == (max_start as int) * (max_offset as int)) by (nonlinear_arith);
            }
            rail.x + offset as i32
        };
        let thumb = Rect::new(thumb_x, rail.y, thumb_width, 2);
        Some((rail, thumb))
    }
}

/// Whether `note` is drawn in the lane of clip `clip` (`None`: the notes no clip owns).
pub open spec fn note_in_lane(note: MidiNote, clip: Option<u64>) -> bool {
    match clip {
        Some(id) => note.recording_clip_id == Some(id),
        None => note.recording_clip_id is None,
    }
}

/// The notes of `notes` drawn in the lane of `clip`, each with its position, in order.
pub open spec fn lane_notes(notes: Seq<MidiNote>, clip: Option<u64>) -> Seq<(usize, MidiNote)>
    decreases notes.len(),
{
    if notes.len() == 0 {
        Seq::empty()
    } else {
        let rest = lane_notes(notes.drop_last(), clip);
        if note_in_lane(notes.last(), clip) { rest.push(((notes.len() - 1) as usize, notes.last())) } else { rest }
    }
}

/// The notes of `track` that belong to clip `recording_clip_id` (or, for `None`, to no
/// clip), each with its position in the track's note list.
pub fn indexed_notes(track: &Track, recording_clip_id: Option<u64>) -> (r: Vec<(usize, MidiNote)>)
    ensures
        r@ == lane_notes(track.midi_notes@, recording_clip_id),
{
    let mut r: Vec<(usize, MidiNote)> = Vec::new();
    let mut i: usize = 0;
    while i < track.midi_notes.len()
        invariant
            i <= track.midi_notes@.len(),
            r@ == lane_notes(track.midi_notes@.take(i as int), recording_clip_id),
        decreases track.midi_notes@.len() - i,
    {
        let note = track.midi_notes[i];
        proof {
            let next = track.midi_notes@.take(i as int + 1);
            assert(next.drop_last() =~= track.midi_notes@.take(i as int));
            assert(next.last() == note);
        }
        let belongs = match recording_clip_id {
            Some(id) => match note.recording_clip_id {
                Some(owner) => owner == id,
                None => false,
            },
            None => note.recording_clip_id.is_none(),
        };
        if belongs {
            r.push((i, note));
        }
        i = i + 1;
    }
    assert(track.midi_notes@.take(i as int) =~= track.midi_notes@);
    r
}

/// One lane of the stacked recording view: the clip it shows (none for the preview lane of
/// the pass in progress), where it is drawn, and how.
#[derive(Debug, Clone, Copy, PartialEq, Eq, Structural)]
pub struct RecordingLaneLayout {
    pub clip_id: Option<u64>,
    pub rect: Rect,
    pub selected: bool,
    pub muted: bool,
    pub preview: bool,
}

/// Size of each of `count` equal lanes sharing `total` pixels with two-pixel gaps between
/// them: the floor of an equal share of what the gaps leave, and zero when nothing is left.
pub open spec fn lane_size(total: int, count: int) -> int {
    if count <= 0 || total - 2 * (count - 1) <= 0 { 0 } else { (total - 2 * (count - 1)) / count }
}

/// Lane `i` of `count` equal lanes in `bounds`: side by side when time runs down the
/// columns, stacked when it runs across the rows.
pub open spec fn lane_rect(bounds: Rect, flow: TimelineFlow, count: int, i: int) -> Rect {
    match flow {
        TimelineFlow::DownwardColumns => {
            let size = lane_size(bounds.w as int, count);
            Rect::made(bounds.x + i * (size + 2), bounds.y as int, size, bounds.h as int)
        },
        TimelineFlow::AcrossRows => {
            let size = lane_size(bounds.h as int, count);
            Rect::made(bounds.x as int, bounds.y + i * (size + 2), bounds.w as int, size)
        },
    }
}

/// The lanes of the stacked view of `track` in `content_rect`: one per committed clip in the
/// lane window, in clip order, then the preview lane when it is shown.
pub open spec fn lane_layouts(app: App, content_rect: Rect, track: Track) -> Seq<RecordingLaneLayout> {
    let window = app.spec_lane_window(track, app.spec_lane_capacity(content_rect));
    let count = window.visible_committed + (if window.show_preview { 1int } else { 0int });
    let committed = Seq::new(window.visible_committed as nat, |k: int| {
        let clip = track.recording_clips@[window.committed_start + k];
        RecordingLaneLayout {
            clip_id: Some(clip.id),
            rect: lane_rect(content_rect, app.timeline_flow, count, k),
            selected: track.selected_recording_clip_id == Some(clip.id),
            muted: clip.muted,
            preview: false,
        }
    });
    if window.show_preview {
        committed.push(RecordingLaneLayout {
            clip_id: None,
            rect: lane_rect(content_rect, app.timeline_flow, count, window.visible_committed as int),
            selected: false,
            muted: false,
            preview: true,
        })
    } else {
        committed
    }
}

/// The clip of the first lane, from lane `k` on, that holds the point and shows a clip.
pub open spec fn first_lane_hit(lanes: Seq<RecordingLaneLayout>, x: int, y: int, k: int) -> Option<u64>
    decreases lanes.len() - k,
{
    if k < 0 || k >= lanes.len() {
        None
    } else if lanes[k].rect.contains(x, y) && lanes[k].clip_id is Some {
        lanes[k].clip_id
    } else {
        first_lane_hit(lanes, x, y, k + 1)
    }
}

/// Builds lane `i` of `count` equal lanes in `bounds`.
fn lane_rect_at(bounds: Rect, flow: TimelineFlow, count: usize, i: usize) -> (r: Rect)
    requires
        bounds.wf(),
        i < count,
        17 * count <= (match flow {
            TimelineFlow::DownwardColumns => bounds.w as int,
            TimelineFlow::AcrossRows => bounds.h as int,
        }) + 2 || count == 1,
    ensures
        r == lane_rect(bounds, flow, count as int, i as int),
{
    let total: u32 = match flow {
        TimelineFlow::DownwardColumns => bounds.w,
        TimelineFlow::AcrossRows => bounds.h,
    };
    let gaps: u64 = 2 * (count as u64 - 1);
    let size: u64 = if total as u64 <= gaps { 0 } else { (total as u64 - gaps) / count as u64 };
    proof {
        let c = count as int;
        let t = total as int;
        let sz = size as int;
        let ii = i as int;
        assert(sz == lane_size(t, c));
        if t > 2 * (c - 1) {
            assert(sz * c <= t - 2 * (c - 1)) by (nonlinear_arith)
                requires sz == (t - 2 * (c - 1)) / c, c >= 1, t - 2 * (c - 1) > 0;
            assert(ii * (sz + 2) <= t) by (nonlinear_arith)
                requires sz * c <= t - 2 * (c - 1), 0 <= ii < c, sz >= 0;
        } else {
            assert(ii * (sz + 2) <= t) by (nonlinear_arith)
                requires sz == 0, 0 <= ii < c, 2 * (c - 1) <= t;
        }
    }
    let offset: u64 = i as u64 * (size + 2);
    match flow {
        TimelineFlow::DownwardColumns => Rect::new((bounds.x as i64 + offset as i64) as i32, bounds.y, size as u32, bounds.h),
        TimelineFlow::AcrossRows => Rect::new(bounds.x, (bounds.y as i64 + offset as i64) as i32, bounds.w, size as u32),
    }
}

impl App {
    /// The lanes of the stacked view of `track` in `content_rect`.
    pub fn recording_lane_layouts(&self, content_rect: Rect, track: &Track) -> (r: Vec<RecordingLaneLayout>)
        requires
            content_rect.wf(),
            track.recording_clips@.len() < usize::MAX,
        ensures
            r@ == lane_layouts(*self, content_rect, *track),
    {
        let capacity = self.recording_lane_capacity(content_rect);
        let window = self.recording_lane_window(track, capacity);
        let count: usize = window.visible_committed + if window.show_preview { 1 } else { 0 };
        let ghost expected = lane_layouts(*self, content_rect, *track);
        proof {
            assert(window == self.spec_lane_window(*track, self.spec_lane_capacity(content_rect)));
        }
        let mut r: Vec<RecordingLaneLayout> = Vec::new();
        let mut k: usize = 0;
        while k < window.visible_committed
            invariant
                k <= window.visible_committed,
                window == self.spec_lane_window(*track, self.spec_lane_capacity(content_rect)),
                window.committed_start <= window.committed_end <= track.recording_clips@.len(),
                window.visible_committed == window.committed_end - window.committed_start,
                count == window.visible_committed + (if window.show_preview { 1int } else { 0int }),
                count <= max_int(capacity as int, 1),
                capacity == self.spec_lane_capacity(content_rect),
                content_rect.wf(),
                expected == lane_layouts(*self, content_rect, *track),
                r@.len() == k,
                forall|j: int| 0 <= j < k ==> r@[j] == #[trigger] expected[j],
            decreases window.visible_committed - k,
        {
            let clip = track.recording_clips[window.committed_start + k];
            let rect = lane_rect_at(content_rect, self.timeline_flow, count, k);
            let selected = match track.selected_recording_clip_id {
                Some(id) => id == clip.id,
                None => false,
            };
            r.push(RecordingLaneLayout { clip_id: Some(clip.id), rect, selected, muted: clip.muted, preview: false });
            k = k + 1;
        }
        if window.show_preview {
            let rect = lane_rect_at(content_rect, self.timeline_flow, count, window.visible_committed);
            r.push(RecordingLaneLayout { clip_id: None, rect, selected: false, muted: false, preview: true });
        }
        assert(r@ =~= expected);
        r
    }

    /// The clip whose lane holds the point, if any; the preview lane holds none.
    pub fn recording_lane_hit_clip(&self, content_rect: Rect, track: &Track, x: i32, y: i32) -> (r: Option<u64>)
        requires
            content_rect.wf(),
            track.recording_clips@.len() < usize::MAX,
        ensures
            r == first_lane_hit(lane_layouts(*self, content_rect, *track), x as int, y as int, 0),
    {
        let lanes = self.recording_lane_layouts(content_rect, track);
        let mut k: usize = 0;
        while k < lanes.len()
            invariant
                k <= lanes@.len(),
                lanes@ == lane_layouts(*self, content_rect, *track),
                first_lane_hit(lanes@, x as int, y as int, 0) == first_lane_hit(lanes@, x as int, y as int, k as int),
                forall|j: int| 0 <= j < lanes@.len() ==> (#[trigger] lanes@[j]).rect.wf(),
            decreases lanes@.len() - k,
        {
            let lane = lanes[k];
            if rect_contains(lane.rect, x, y) && lane.clip_id.is_some() {
                return lane.clip_id;
            }
            k = k + 1;
        }
        None
    }
}

} // verus!
