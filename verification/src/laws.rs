//! Properties of the timeline model that span several operations.
use vstd::prelude::*;
use crate::align_panel::{
    clip_align_committed, clip_align_done, clip_align_field_adjusted, destination_start, fitted_loop, only_panel_changed,
    preview_refreshed, tempo_commit_allowed,
};
use crate::app::App;
use crate::columns::{column_fits, spec_band_rects, spec_body_bounds, spec_union};
use crate::clip_align::{
    ClipAlignBlock, ClipAlignDestination, ClipAlignField, ClipAlignSession, ClipAlignSettings, ClipAlignSourceStartMode,
    ClipAlignTargetLength, clip_align_applied, is_nearest_target, source_end, source_start, spec_adjusted_settings,
    target_suggested, tempo_adjusted_length,
};
use crate::fx_layout::{inspector_left, slot_side, slot_square};
use crate::fx_rack::{fx_enabled_toggled, fx_moved, kind_stepped, toggled};
use crate::geometry::{Rect, MAX_INT_VALUE};
use crate::lanes::{max_int, min_int, synced_scroll, thumb_left};
use crate::midi_fx::{MidiFx, MidiFxSlot};
use crate::project::{MidiFxChainKind, MidiNote, RecordingClip, Track, TrackState, Transport, clip_position, next_clip_selected, previous_clip_selected};
use crate::timeline::{RecordContext, loop_phase, recorded_span};
use crate::track_strip::{sat_sub};

verus! {

/// Stepping the kind of a slot that holds an effect never empties it.
pub proof fn law_kind_step_keeps_effect(slot: MidiFxSlot, delta: int)
    ensures
        kind_stepped(Some(slot), delta) is Some,
{
}

/// Switching the selected effect on or off twice restores the rack.
pub proof fn law_fx_toggle_twice_restores(a: App, b: App, c: App)
    requires
        fx_enabled_toggled(a, b),
        fx_enabled_toggled(b, c),
        a.has_active(),
    ensures
        forall|k: MidiFxChainKind| {
            &&& #[trigger] c.active().midi_fx.chain(k) == a.active().midi_fx.chain(k)
            &&& c.active().midi_fx.windows(k) == a.active().midi_fx.windows(k)
            &&& c.active().midi_fx.stored_row(k) == a.active().midi_fx.stored_row(k)
        },
        c.page_state == a.page_state,
{
    match (a.page_state.selected_timeline_context.spec_chain_kind(), a.spec_selected_slot_of_context()) {
        (Some(kind), Some(s)) => {
            assert(b.spec_selected_slot_of_context() == Some(s));
            let chain = a.active().midi_fx.chain(kind);
            assert(toggled(toggled(chain[s as int])) == chain[s as int]);
            assert(c.active().midi_fx.chain(kind) =~= chain);
            assert(c.active().midi_fx.windows(kind) =~= a.active().midi_fx.windows(kind));
        },
        _ => {},
    }
}

/// A pass recorded into a track loop without wrapping starts where the playhead is heard at
/// the press: the loop start plus the transport position within the loop.
pub proof fn law_track_loop_pass_starts_at_audible_playhead(app: App, start_capture: u64, end_capture: u64, ctx: RecordContext)
    requires
        ctx.wrap_basis_ticks == 0,
        ctx.range.length_ticks > 0,
        end_capture > start_capture,
        loop_phase(ctx.range.length_ticks as int, 0, start_capture as int) + (end_capture - start_capture) <= ctx.range.length_ticks,
    ensures
        recorded_span(start_capture as int, end_capture as int, Some(ctx))
            == Some((ctx.range.start_ticks + start_capture % ctx.range.length_ticks, end_capture - start_capture)),
{
}

/// A pass that runs past the loop end while clip extension is on covers the loop from its
/// start, and at least one whole loop.
pub proof fn law_extended_pass_starts_at_loop_start(start_capture: int, end_capture: int, ctx: RecordContext)
    requires
        ctx.extend_clip_on_wrap,
        ctx.range.length_ticks > 0,
        end_capture > start_capture,
        loop_phase(ctx.range.length_ticks as int, ctx.wrap_basis_ticks as int, start_capture) + (end_capture - start_capture)
            > ctx.range.length_ticks,
    ensures
        recorded_span(start_capture, end_capture, Some(ctx)) matches Some((s, l))
            && s == ctx.range.start_ticks && l >= ctx.range.length_ticks && l >= end_capture - start_capture,
{
}

/// Moving the selected effect down and then up restores the rack and the selection.
pub proof fn law_fx_move_down_then_up_restores(a: App, b: App, c: App, kind: MidiFxChainKind)
    requires
        a.wf(),
        a.page_state.selected_timeline_context.spec_chain_kind() == Some(kind),
        a.spec_selected_slot(kind) matches Some(s) && s + 1 < a.shown_rows(kind) && a.chain_of(kind)[s as int] is Some,
        fx_moved(a, b, 1i32),
        fx_moved(b, c, -1i32),
    ensures
        c.active().midi_fx.chain(kind) == a.active().midi_fx.chain(kind),
        c.active().midi_fx.windows(kind) == a.active().midi_fx.windows(kind),
        c.spec_selected_slot(kind) == a.spec_selected_slot(kind),
        c.page_state == a.page_state,
{
    let s = a.spec_selected_slot(kind)->0;
    let t = s + 1;
    let chain = a.active().midi_fx.chain(kind);
    let windows = a.active().midi_fx.windows(kind);
    assert(b.shown_rows(kind) == a.shown_rows(kind));
    assert(b.spec_selected_slot_of_context() == Some(t as nat));
    assert(b.active().midi_fx.chain(kind)[t as int] == chain[s as int]);
    assert(c.active().midi_fx.chain(kind) =~= chain);
    assert(c.active().midi_fx.windows(kind) =~= windows);
}

/// After the clip scroll is brought up to date, the selected clip lies inside the window of
/// lanes shown, and the window stays within the lanes that exist.
pub proof fn law_synced_scroll_shows_selected_clip(clips: Seq<RecordingClip>, id: u64, scroll: nat, capacity: nat)
    requires
        clips.len() > 0,
        clip_position(clips, id) is Some,
    ensures
        ({
            let p = clip_position(clips, id)->0;
            let visible = min_int(max_int(capacity as int, 1), clips.len() as int);
            let synced = synced_scroll(clips, Some(id), false, scroll, capacity) as int;
            &&& synced <= p < synced + visible
            &&& synced + visible <= clips.len()
        }),
{
    let p = clip_position(clips, id)->0;
    assert(0 <= p < clips.len());
}

/// The scroll thumb moves right, or stays, as the lane window moves towards later clips.
pub proof fn law_scroll_thumb_follows_window(rail_x: int, max_offset: int, start1: int, start2: int, max_start: int)
    requires
        max_offset >= 0,
        0 <= start1 <= start2 <= max_start,
    ensures
        thumb_left(rail_x, max_offset, start1, max_start) <= thumb_left(rail_x, max_offset, start2, max_start),
{
    if max_start > 0 {
        assert(max_offset * start1 <= max_offset * start2) by (nonlinear_arith)
            requires max_offset >= 0, start1 <= start2;
        vstd::arithmetic::div_mod::lemma_div_is_ordered(max_offset * start1, max_offset * start2, max_start);
    }
}

/// Selecting the next clip and then the previous one returns to the clip selected before,
/// unless it was the last clip.
pub proof fn law_next_then_previous_clip_returns(a: Track, b: Track, c: Track)
    requires
        a.wf(),
        next_clip_selected(a, b),
        previous_clip_selected(b, c),
        a.selected_recording_clip_id matches Some(id) && clip_position(a.recording_clips@, id) matches Some(p)
            && p + 1 < a.recording_clips@.len(),
    ensures
        c.selected_recording_clip_id == a.selected_recording_clip_id,
{
    let clips = a.recording_clips@;
    let id = a.selected_recording_clip_id->0;
    let p = clip_position(clips, id)->0;
    let next_id = clips[p + 1].id;
    crate::lanes::lemma_found_position(clips, next_id, p + 1);
    assert(clips[p].id == id);
}

/// When time runs down the columns, the label strip and the content area of a lane do not
/// overlap, and the thru button sits in the label strip clear of the content.
pub proof fn law_label_strip_clear_of_content(lane: Rect)
    requires
        lane.wf(),
        lane.w >= 9,
        lane.x + lane.w <= MAX_INT_VALUE,
        lane.y + 24 <= MAX_INT_VALUE,
    ensures
        ({
            let label = Rect::made(lane.x as int, lane.y as int, lane.w as int, 24);
            let content = Rect::made(lane.x as int, lane.y + 24, lane.w as int, sat_sub(lane.h as int, 24));
            let inner = sat_sub(lane.w as int, 8);
            let thru = Rect::made(lane.x + 4, lane.y + 1, if inner < 30 { inner } else { 30 }, 11);
            &&& !label.overlaps(content)
            &&& label.contains(thru.x + thru.w / 2, thru.y + thru.h / 2)
            &&& !thru.overlaps(content)
        }),
{
}

/// The four slot squares of an FX rack never overlap each other, and the inspector with its
/// arrows starts to the right of them.
pub proof fn law_fx_slots_disjoint(band: Rect, i: int, j: int)
    requires
        band.wf(),
        0 <= i < 4,
        0 <= j < 4,
        i != j,
        band.x + 2 * slot_side(band) + 20 <= MAX_INT_VALUE,
        band.y + 2 * slot_side(band) + 8 <= MAX_INT_VALUE,
    ensures
        !slot_square(band, i).overlaps(slot_square(band, j)),
        slot_square(band, i).spec_right() < inspector_left(band) - 10,
{
    let side = slot_side(band);
    assert(side >= 7);
    lemma_slot_square_at(band, i);
    lemma_slot_square_at(band, j);
}

/// Where slot `i` of the first four lies, written without the grid arithmetic.
#[verifier::spinoff_prover]
proof fn lemma_slot_square_at(band: Rect, i: int)
    requires
        band.wf(),
        0 <= i < 4,
        band.x + 2 * slot_side(band) + 20 <= MAX_INT_VALUE,
        band.y + 2 * slot_side(band) + 8 <= MAX_INT_VALUE,
    ensures
        ({
            let side = slot_side(band);
            let col = if i == 0 || i == 2 { 0int } else { 1int };
            let line = if i < 2 { 0int } else { 1int };
            let sq = slot_square(band, i);
            &&& sq.x == band.x + 2 + col * (side + 2)
            &&& sq.y == band.y + 2 + line * (side + 2)
            &&& sq.w == side
            &&& sq.h == side
        }),
{
    let side = slot_side(band);
    assert(7 <= side <= MAX_INT_VALUE);
    let col = if i == 0 || i == 2 { 0int } else { 1int };
    let line = if i < 2 { 0int } else { 1int };
    assert(i % 2 == col && i / 2 == line);
    assert((i % 2) * (side + 2) == col * (side + 2));
    assert((i / 2) * (side + 2) == line * (side + 2));
    assert(slot_square(band, i) == Rect::made(band.x + 2 + col * (side + 2), band.y + 2 + line * (side + 2), side, side));
}

/// A step of the selected field of the clip-align panel that a step the other way undoes:
/// the source start steps between its two modes, the target length is not at the end it
/// steps towards, and the other fields cycle or toggle.
pub open spec fn step_reversible(field: ClipAlignField, s: ClipAlignSettings, d: int) -> bool {
    match field {
        ClipAlignField::SourceStart => (s.source_start_mode == ClipAlignSourceStartMode::ClipStart && d > 0)
            || (s.source_start_mode == ClipAlignSourceStartMode::FirstNote && d < 0),
        ClipAlignField::TargetLength => (d > 0 && s.target_length != ClipAlignTargetLength::Bar16)
            || (d < 0 && s.target_length != ClipAlignTargetLength::Bar1),
        _ => d != 0,
    }
}

/// Stepping the selected field of the open clip-align panel by `d` and then by `-d`
/// restores its settings, keeps its field, track and clip, and leaves the project as it was.
pub proof fn law_clip_align_step_back_restores(a: App, b: App, c: App, d: i32)
    requires
        a.clip_align_session matches Some(s) && s.track_index < a.project.tracks@.len()
            && step_reversible(s.selected_field, s.settings, d as int),
        d != i32::MIN,
        clip_align_field_adjusted(a, b, d),
        clip_align_field_adjusted(b, c, (-d) as i32),
    ensures
        c.clip_align_session matches Some(t) && t.settings == a.clip_align_session->0.settings
            && t.selected_field == a.clip_align_session->0.selected_field
            && t.track_index == a.clip_align_session->0.track_index
            && t.clip_id == a.clip_align_session->0.clip_id,
        only_panel_changed(a, c),
{
    let s = a.clip_align_session->0;
    let mid1 = choose|mid: App| {
        &&& only_panel_changed(a, mid)
        &&& mid.clip_align_session == Some(ClipAlignSession {
            settings: spec_adjusted_settings(s.selected_field, s.settings, d as int),
            ..s
        })
        &&& #[trigger] preview_refreshed(mid, b)
    };
    let s1 = b.clip_align_session->0;
    assert(b.clip_align_session is Some);
    assert(s1.settings == spec_adjusted_settings(s.selected_field, s.settings, d as int));
    let mid2 = choose|mid: App| {
        &&& only_panel_changed(b, mid)
        &&& mid.clip_align_session == Some(ClipAlignSession {
            settings: spec_adjusted_settings(s1.selected_field, s1.settings, (-d) as int),
            ..s1
        })
        &&& #[trigger] preview_refreshed(mid, c)
    };
    assert(spec_adjusted_settings(s.selected_field, spec_adjusted_settings(s.selected_field, s.settings, d as int), -d) == s.settings);
}

/// In a column of moderate size, with real band heights, the input band ends above both
/// sub-column bodies, the output band starts four pixels below them, and neither band
/// overlaps a body.
pub proof fn law_fx_bands_clear_of_bodies(full: Rect, detail: Rect, status: Rect, top_h: int, bottom_h: int)
    requires
        full.wf(),
        detail.wf(),
        status.wf(),
        full.x >= 0 && full.y >= 0 && detail.x >= 0 && detail.y >= 0 && status.x >= 0 && status.y >= 0,
        full.spec_right() <= 0x100_0000 && full.spec_bottom() <= 0x100_0000,
        detail.spec_right() <= 0x100_0000 && detail.spec_bottom() <= 0x100_0000,
        status.spec_right() <= 0x100_0000 && status.spec_bottom() <= 0x100_0000,
        1 <= top_h <= 0x100_0000,
        1 <= bottom_h <= 0x100_0000,
    ensures
        column_fits(full, detail, status, top_h, bottom_h),
        ({
            let (bf, bd) = spec_body_bounds(full, detail, status, top_h, bottom_h);
            let (input, output) = spec_band_rects(full, detail, status, top_h, bottom_h);
            let body = spec_union(bf, bd);
            &&& output.y == body.y + body.h + 4
            &&& !input.overlaps(bf) && !input.overlaps(bd)
            &&& !output.overlaps(bf) && !output.overlaps(bd)
        }),
{
}

/// The tick lengths of the musical values a delay or duration steps through, from the
/// shortest up to two whole notes.
pub open spec fn is_musical_length(m: u32) -> bool {
    m == 120 || m == 240 || m == 480 || m == 960 || m == 1920 || m == 3840 || m == 7680
}

/// A delay effect of `m` ticks.
pub open spec fn delay_of(m: u32) -> MidiFx {
    MidiFx::Delay { delay_ticks: m }
}

/// A duration effect of `m` ticks.
pub open spec fn duration_of(m: u32) -> MidiFx {
    MidiFx::Duration { length_ticks: m }
}

/// Stepping a delay time or a note duration that is a musical length one step forward gives
/// twice that length (two whole notes stay two whole notes), one step back gives half of it
/// from 1/16 up, and a step forward then back restores any value below two whole notes,
/// `Off` included.
pub proof fn law_musical_lengths_step_by_doubling(m: u32, track_count: nat)
    requires
        is_musical_length(m) || m == 0,
    ensures
        is_musical_length(m) && m < 7680 ==> delay_of(m).spec_adjusted(0, 1, track_count)
            == delay_of((2 * m) as u32),
        is_musical_length(m) && m < 7680 ==> duration_of(m).spec_adjusted(0, 1, track_count)
            == duration_of((2 * m) as u32),
        m == 7680 ==> delay_of(m).spec_adjusted(0, 1, track_count) == delay_of(m),
        m == 7680 ==> duration_of(m).spec_adjusted(0, 1, track_count) == duration_of(m),
        is_musical_length(m) && m > 120 ==> delay_of(m).spec_adjusted(0, -1, track_count)
            == delay_of((m / 2) as u32),
        is_musical_length(m) && m > 120 ==> duration_of(m).spec_adjusted(0, -1, track_count)
            == duration_of((m / 2) as u32),
        m < 7680 ==> delay_of(m).spec_adjusted(0, 1, track_count).spec_adjusted(0, -1, track_count)
            == delay_of(m),
        m < 7680 ==> duration_of(m).spec_adjusted(0, 1, track_count).spec_adjusted(0, -1, track_count)
            == duration_of(m),
{
}

/// A clip's length measured at the current tempo: `len` ticks captured at `capture` BPM last
/// the largest whole number of ticks at `tempo` BPM that does not exceed `len * tempo /
/// capture`. In particular a clip captured at the current tempo keeps its length, and one
/// captured at half the current tempo measures twice its length.
pub proof fn law_clip_length_scales_with_tempo(len: int, capture: int, tempo: int)
    requires
        0 <= len,
        0 < capture,
        0 <= tempo,
        len * tempo <= u64::MAX * capture,
    ensures
        tempo_adjusted_length(len, capture, tempo) * capture <= len * tempo,
        len * tempo < (tempo_adjusted_length(len, capture, tempo) + 1) * capture,
        tempo == capture ==> tempo_adjusted_length(len, capture, tempo) == len,
        tempo == 2 * capture && 2 * len <= u64::MAX ==> tempo_adjusted_length(len, capture, tempo) == 2 * len,
{
    let q = (len * tempo) / capture;
    assert(q * capture <= len * tempo && len * tempo < (q + 1) * capture) by (nonlinear_arith)
        requires q == (len * tempo) / capture, capture > 0, len * tempo >= 0;
    assert(q <= u64::MAX) by (nonlinear_arith)
        requires q * capture <= len * tempo, len * tempo <= u64::MAX * capture, capture > 0;
    if tempo == capture {
        assert(len * tempo == len * capture) by (nonlinear_arith) requires tempo == capture;
        assert((len * capture) / capture == len) by (nonlinear_arith) requires capture > 0;
    }
    if tempo == 2 * capture {
        assert(len * tempo == (2 * len) * capture) by (nonlinear_arith) requires tempo == 2 * capture;
        assert(((2 * len) * capture) / capture == 2 * len) by (nonlinear_arith) requires capture > 0;
    }
}

/// For a clip captured at half the current tempo, the suggested target is the one nearest to
/// twice its source length.
pub proof fn law_half_tempo_clip_suggests_for_double_length(
    clip: RecordingClip,
    notes: Seq<MidiNote>,
    settings: ClipAlignSettings,
    transport: Transport,
    t: ClipAlignTargetLength,
)
    requires
        target_suggested(clip, notes, settings, transport, Some(t)),
        clip.native_capture_tempo_bpm > 0,
        transport.tempo_bpm == 2 * clip.native_capture_tempo_bpm,
    ensures
        exists|s: int, e: int| {
            &&& source_start(clip, notes, settings.source_start_mode, s)
            &&& source_end(clip, notes, settings.source_end_mode, e)
            &&& e > s
            &&& (2 * (e - s) <= u64::MAX ==> is_nearest_target(2 * (e - s), transport.ppqn as nat, t))
        },
{
    let (s, e) = choose|s: int, e: int| {
        &&& source_start(clip, notes, settings.source_start_mode, s)
        &&& source_end(clip, notes, settings.source_end_mode, e)
        &&& e > s
        &&& is_nearest_target(tempo_adjusted_length(e - s, clip.native_capture_tempo_bpm as int, transport.tempo_bpm as int), transport.ppqn as nat, t)
    };
    if 2 * (e - s) <= u64::MAX {
        let c = clip.native_capture_tempo_bpm as int;
        assert((e - s) * (2 * c) == (2 * (e - s)) * c) by (nonlinear_arith);
        assert((2 * (e - s)) * c <= u64::MAX * c) by (nonlinear_arith) requires 2 * (e - s) <= u64::MAX, c > 0;
        law_clip_length_scales_with_tempo(e - s, c, transport.tempo_bpm as int);
    }
}

/// For a clip captured at the current tempo (or with no capture tempo), the suggested target
/// is the one nearest to its own source length.
pub proof fn law_same_tempo_clip_suggests_for_own_length(
    clip: RecordingClip,
    notes: Seq<MidiNote>,
    settings: ClipAlignSettings,
    transport: Transport,
    t: ClipAlignTargetLength,
)
    requires
        target_suggested(clip, notes, settings, transport, Some(t)),
        clip.native_capture_tempo_bpm == transport.tempo_bpm || clip.native_capture_tempo_bpm == 0,
    ensures
        exists|s: int, e: int| {
            &&& source_start(clip, notes, settings.source_start_mode, s)
            &&& source_end(clip, notes, settings.source_end_mode, e)
            &&& e > s
            &&& (e - s <= u64::MAX ==> is_nearest_target(e - s, transport.ppqn as nat, t))
        },
{
    let (s, e) = choose|s: int, e: int| {
        &&& source_start(clip, notes, settings.source_start_mode, s)
        &&& source_end(clip, notes, settings.source_end_mode, e)
        &&& e > s
        &&& is_nearest_target(tempo_adjusted_length(e - s, clip.native_capture_tempo_bpm as int, transport.tempo_bpm as int), transport.ppqn as nat, t)
    };
    let c = clip.native_capture_tempo_bpm as int;
    if c > 0 && e - s <= u64::MAX {
        assert((e - s) * c <= u64::MAX * c) by (nonlinear_arith) requires e - s <= u64::MAX, c > 0;
        law_clip_length_scales_with_tempo(e - s, c, transport.tempo_bpm as int);
    }
}

/// Applying the clip-align panel never moves the start of a loop: with the track loop as
/// destination the fitted track's loop keeps its start (and the song loop is untouched), and
/// with the song loop as destination the song loop keeps its start.
pub proof fn law_clip_align_keeps_destination_start(a: App, b: App)
    requires
        clip_align_done(a, b),
        a.clip_align_session is Some,
        a.clip_align_session->0.track_index < a.project.tracks@.len(),
    ensures
        ({
            let s = a.clip_align_session->0;
            let t = s.track_index as int;
            &&& s.settings.destination == ClipAlignDestination::TrackLoop ==>
                b.project.tracks@[t].loop_region.start_ticks == a.project.tracks@[t].loop_region.start_ticks
                && b.project.loop_region == a.project.loop_region
            &&& s.settings.destination == ClipAlignDestination::SongLoop ==>
                b.project.loop_region.start_ticks == a.project.loop_region.start_ticks
        }),
{
    let s = a.clip_align_session->0;
    match destination_start(a, s.track_index, s.settings.destination) {
        None => {},
        Some(dest) => {
            if dest + fitted_loop(s, dest).length_ticks > u64::MAX {
            } else {
                let (r, fitted) = choose|r: Result<Option<u16>, ClipAlignBlock>, fitted: Track| {
                    &&& #[trigger] clip_align_applied(a.project.tracks@[s.track_index as int], fitted,
                        a.project.transport, s.clip_id, s.settings, dest, tempo_commit_allowed(a), r)
                    &&& r is Err ==> preview_refreshed(a, b)
                    &&& r matches Ok(tempo) ==> clip_align_committed(a, b, s, dest, fitted, tempo)
                };
                if let Ok(tempo) = r {
                    assert(b.project.tracks@[s.track_index as int] == (if s.settings.destination == ClipAlignDestination::TrackLoop {
                        Track {
                            loop_region: fitted_loop(s, dest),
                            state: TrackState { loop_enabled: fitted.state.loop_enabled || s.settings.enable_loop_on_apply, ..fitted.state },
                            ..fitted
                        }
                    } else {
                        fitted
                    }));
                }
            }
        },
    }
}

} // verus!
