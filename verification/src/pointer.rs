//! Pointer presses on the timeline page: which control a press lands on, what it does, and
//! the hover targets that offer controls for mapping.

use vstd::prelude::*;
use crate::actions::{AppAction, action_applied, host_handled};
use crate::align_panel::{selected_clip_or_only, selected_or_only};
use crate::app::{App, AppControl, TimelineContext};
use crate::columns::TimelineTrackLayout;
use crate::fx_layout::{TimelineFxRowRef, first_parameter_hit, fx_pointer_handled, layout_wf, spec_fx_hit};
use crate::fx_rack::{fx_row_set, unchanged};
use crate::geometry::{Rect, rect_contains};
use crate::lanes::{RecordingLaneLayout, first_lane_hit, lane_layouts};
use crate::project::{MidiFxChainKind, RecordingView, Track, clip_position};
use crate::track_strip::sat_sub;

verus! {

/// What a press on the timeline page lands on.
#[derive(Debug, Clone, Copy)]
pub enum PointerTarget {
    /// No control.
    Nothing,
    /// A control that carries out `action`, after making `track` the active track when the
    /// control belongs to one.
    Act { track: Option<usize>, action: AppAction },
    /// A slot of an FX rack of track `track`.
    Fx { track_index: usize, hit: TimelineFxRowRef },
}

/// The track-view button in the page header.
pub open spec fn focus_button(header: Rect) -> Rect {
    Rect::made(header.x + header.w - 240, header.y + 3, 78, if header.h >= 6 { header.h - 6 } else { 0 })
}

/// The MIDI thru button of a label strip.
pub open spec fn thru_button(label: Rect) -> Rect {
    Rect::made(label.x + 4, label.y + 1, if sat_sub(label.w as int, 8) < 30 { sat_sub(label.w as int, 8) } else { 30 }, 11)
}

/// The recording-view chip of a label strip.
pub open spec fn view_chip(label: Rect) -> Rect {
    Rect::made(label.x + label.w - 4 - 26, label.y + label.h - 13, 26, 11)
}

/// The clip scroll button of a label strip under the point, when it can move the selection.
pub open spec fn scroll_button_action(label: Rect, track: Track, x: int, y: int) -> Option<AppAction> {
    let view = view_chip(label);
    let right = Rect::made(view.x - 16, label.y + label.h - 13, 12, 11);
    let left = Rect::made(right.x - 14, label.y + label.h - 13, 12, 11);
    let position = match track.selected_recording_clip_id {
        Some(id) => clip_position(track.recording_clips@, id),
        None => None,
    };
    let can_previous = position matches Some(p) && p > 0;
    let can_next = position matches Some(p) && p + 1 < track.recording_clips@.len();
    if track.recording_view != RecordingView::Stacked {
        None
    } else if left.contains(x, y) && can_previous {
        Some(AppAction::SelectPreviousRecordingClip)
    } else if right.contains(x, y) && can_next {
        Some(AppAction::SelectNextRecordingClip)
    } else {
        None
    }
}

/// The align, mute and delete buttons of the addressed clip in a label strip.
pub open spec fn clip_button(label: Rect, k: int) -> Rect {
    Rect::made(label.x + label.w - 4 - 44 + 16 * k, label.y + 1, 12, 11)
}

/// The status indicators of a track column.
#[derive(Debug, Clone, Copy, PartialEq, Eq, Structural)]
pub enum TrackIndicatorKind {
    Armed,
    Recording,
    Muted,
    Solo,
}

/// A status indicator and where it is drawn.
#[derive(Debug, Clone, Copy, PartialEq, Eq, Structural)]
pub struct TrackIndicator {
    pub kind: TrackIndicatorKind,
    pub rect: Rect,
}

/// What pressing an indicator does: arm, record, mute or solo the track it belongs to.
pub open spec fn indicator_action(kind: TrackIndicatorKind) -> AppAction {
    match kind {
        TrackIndicatorKind::Armed => AppAction::ToggleCurrentTrackArm,
        TrackIndicatorKind::Recording => AppAction::ToggleRecording,
        TrackIndicatorKind::Muted => AppAction::ToggleCurrentTrackMute,
        TrackIndicatorKind::Solo => AppAction::ToggleCurrentTrackSolo,
    }
}

/// The action of the first indicator, from indicator `k` on, that holds the point.
pub open spec fn first_indicator_hit(inds: Seq<TrackIndicator>, x: int, y: int, k: int) -> Option<AppAction>
    decreases inds.len() - k,
{
    if k < 0 || k >= inds.len() {
        None
    } else if inds[k].rect.contains(x, y) {
        Some(indicator_action(inds[k].kind))
    } else {
        first_indicator_hit(inds, x, y, k + 1)
    }
}

/// What a press lands on in the column pair of one track, in the order the controls are
/// tried: status indicators, thru button, clip scroll buttons, recording-view chip, output rack, the addressed
/// clip's align, mute and delete buttons, input rack, then the lanes of the full and the
/// detail view.
pub open spec fn track_pointer_target(a: App, l: TimelineTrackLayout, inds: Seq<TrackIndicator>, x: int, y: int) -> PointerTarget {
    let i = l.track_index;
    let track = a.project.tracks@[i as int];
    let label = l.full_label_rect;
    let act = |action: AppAction| PointerTarget::Act { track: Some(i), action };
    let has_clip = selected_or_only(track) is Some;
    if first_indicator_hit(inds, x, y, 0) is Some {
        act(first_indicator_hit(inds, x, y, 0)->0)
    } else if thru_button(label).contains(x, y) {
        act(AppAction::ToggleCurrentTrackPassthrough)
    } else if scroll_button_action(label, track, x, y) is Some {
        act(scroll_button_action(label, track, x, y)->0)
    } else if view_chip(label).contains(x, y) {
        act(AppAction::ToggleCurrentTrackRecordingView)
    } else if spec_fx_hit(TimelineContext::OutputFx, l.output_fx_rect, track, x, y) is Some {
        PointerTarget::Fx { track_index: i, hit: spec_fx_hit(TimelineContext::OutputFx, l.output_fx_rect, track, x, y)->0 }
    } else if has_clip && clip_button(label, 0).contains(x, y) {
        act(AppAction::OpenSelectedRecordingClipAlign)
    } else if has_clip && clip_button(label, 1).contains(x, y) {
        act(AppAction::ToggleSelectedRecordingClipMute)
    } else if has_clip && clip_button(label, 2).contains(x, y) {
        act(AppAction::DeleteSelectedRecordingClip)
    } else if spec_fx_hit(TimelineContext::InputFx, l.input_fx_rect, track, x, y) is Some {
        PointerTarget::Fx { track_index: i, hit: spec_fx_hit(TimelineContext::InputFx, l.input_fx_rect, track, x, y)->0 }
    } else if first_lane_hit(lane_layouts(a, l.full_content_rect, track), x, y, 0) is Some {
        act(AppAction::SelectRecordingClip(first_lane_hit(lane_layouts(a, l.full_content_rect, track), x, y, 0)->0))
    } else if first_lane_hit(lane_layouts(a, l.detail_content_rect, track), x, y, 0) is Some {
        act(AppAction::SelectRecordingClip(first_lane_hit(lane_layouts(a, l.detail_content_rect, track), x, y, 0)->0))
    } else {
        PointerTarget::Nothing
    }
}

/// What a press lands on among the track columns from column `k` on; `inds[k]` holds the
/// status indicators of column `k`.
pub open spec fn tracks_pointer_target(a: App, layouts: Seq<TimelineTrackLayout>, inds: Seq<Vec<TrackIndicator>>, x: int, y: int, k: int) -> PointerTarget
    decreases layouts.len() - k,
{
    if k < 0 || k >= layouts.len() {
        PointerTarget::Nothing
    } else {
        match track_pointer_target(a, layouts[k], inds[k]@, x, y) {
            PointerTarget::Nothing => tracks_pointer_target(a, layouts, inds, x, y, k + 1),
            t => t,
        }
    }
}

/// The first transport chip or tempo pad button, from entry `k` on, that holds the point.
pub open spec fn first_chip_hit(chips: Seq<(Rect, AppAction)>, x: int, y: int, k: int) -> Option<AppAction>
    decreases chips.len() - k,
{
    if k < 0 || k >= chips.len() {
        None
    } else if chips[k].0.contains(x, y) {
        Some(chips[k].1)
    } else {
        first_chip_hit(chips, x, y, k + 1)
    }
}

/// What a press lands on: the track-view button, then the transport chips and tempo pad,
/// then the track columns in the order given.
pub open spec fn timeline_pointer_target(
    a: App,
    header: Rect,
    transport: Rect,
    layouts: Seq<TimelineTrackLayout>,
    inds: Seq<Vec<TrackIndicator>>,
    x: int,
    y: int,
) -> PointerTarget {
    if focus_button(header).contains(x, y) {
        PointerTarget::Act { track: None, action: AppAction::ToggleFocusedTrackView }
    } else if first_chip_hit(a.spec_chip_actions(transport), x, y, 0) is Some {
        PointerTarget::Act { track: None, action: first_chip_hit(a.spec_chip_actions(transport), x, y, 0)->0 }
    } else {
        tracks_pointer_target(a, layouts, inds, x, y, 0)
    }
}

/// The app with track `i` active.
pub open spec fn with_active(a: App, i: usize) -> App {
    App { project: crate::project::Project { active_track_index: i, ..a.project }, ..a }
}

/// The app with track `i` active and `context` selected.
pub open spec fn with_active_context(a: App, i: usize, context: TimelineContext) -> App {
    let b = with_active(a, i);
    App { page_state: crate::app::PageState { selected_timeline_context: context, ..b.page_state }, ..b }
}

/// What carrying out `action` on `a` gives `b` and the press's result `r`.
pub open spec fn action_result(a: App, b: App, action: AppAction, r: Option<AppControl>) -> bool {
    &&& host_handled(action) ==> r is None && unchanged(a, b)
    &&& !host_handled(action) ==> r == Some(AppControl::Continue) && action_applied(a, b, action)
}

/// Effect of `handle_timeline_pointer`. A press on nothing changes nothing and is not
/// handled. A press on a control makes its track active, if it belongs to one, and carries
/// out the control's action. A press on a rack slot makes its track active, selects its
/// rack and row, and is then handled as `fx_pointer_handled` says; the press counts as a
/// press on an already selected slot when that track, rack and row were selected before.
pub open spec fn timeline_pointer_handled(
    a: App,
    b: App,
    header: Rect,
    transport: Rect,
    layouts: Seq<TimelineTrackLayout>,
    inds: Seq<Vec<TrackIndicator>>,
    x: int,
    y: int,
    r: Option<AppControl>,
) -> bool {
    match timeline_pointer_target(a, header, transport, layouts, inds, x, y) {
        PointerTarget::Nothing => r is None && b == a,
        PointerTarget::Act { track, action } => action_result(
            match track { Some(i) => with_active(a, i), None => a }, b, action, r),
        PointerTarget::Fx { track_index: track, hit } => {
            let kind = hit.context.spec_chain_kind()->0;
            let was_selected = a.project.active_track_index == track
                && a.page_state.selected_timeline_context == hit.context
                && a.spec_selected_row(kind) == hit.row_index;
            let l = hit.layout;
            &&& exists|mid: App| #[trigger] fx_row_set(with_active_context(a, track, hit.context), mid, kind, hit.row_index)
                && fx_pointer_handled(mid, b, hit, x, y, was_selected)
            &&& r is Some ==> r == Some(AppControl::Continue)
            &&& r is None <==> (!l.move_up.contains(x, y) && !l.move_down.contains(x, y)
                && first_parameter_hit(l, x, y) is Some && hit.context.spec_chain_kind() is None)
        },
    }
}

/// The layouts handed to the pointer handler: each names a track of the app, its label,
/// content and rack areas and its indicators are well-formed rectangles, and every column
/// has its list of indicators.
pub open spec fn layouts_fit(a: App, layouts: Seq<TimelineTrackLayout>, inds: Seq<Vec<TrackIndicator>>) -> bool {
    &&& inds.len() == layouts.len()
    &&& forall|k: int, j: int| 0 <= k < inds.len() && 0 <= j < inds[k]@.len() ==> (#[trigger] inds[k]@[j]).rect.wf()
    &&& forall|k: int| 0 <= k < layouts.len() ==> {
        let l = #[trigger] layouts[k];
        &&& l.track_index < a.project.tracks@.len()
        &&& l.full_label_rect.wf()
        &&& l.full_content_rect.wf()
        &&& l.detail_content_rect.wf()
        &&& l.input_fx_rect.wf()
        &&& l.output_fx_rect.wf()
    }
}


/// The mapping scope a hover target is shown under and may be mapped in.
#[derive(Debug, Clone, Copy, PartialEq, Eq, Structural)]
pub enum MappingScope {
    Global,
    ActiveTrack,
}

/// What hovering a control offers for mapping: the action it carries out, the scope shown
/// for it, the scope a mapping of it may take, and the stored-loop slot it overlays, if any.
#[derive(Debug, Clone, Copy, PartialEq, Eq, Structural)]
pub struct DiscoverabilityTarget {
    pub action: AppAction,
    pub display_scope: Option<MappingScope>,
    pub allowed_scope: MappingScope,
    pub overlay_slot: Option<Rect>,
}

/// A hover target of a track control: shown and mapped on the active track.
pub open spec fn track_target(rect: Rect, action: AppAction) -> (Rect, DiscoverabilityTarget) {
    (rect, DiscoverabilityTarget {
        action,
        display_scope: Some(MappingScope::ActiveTrack),
        allowed_scope: MappingScope::ActiveTrack,
        overlay_slot: None,
    })
}

/// The hover targets of the lanes that show a clip, in lane order.
pub open spec fn lane_targets(lanes: Seq<RecordingLaneLayout>) -> Seq<(Rect, DiscoverabilityTarget)>
    decreases lanes.len(),
{
    if lanes.len() == 0 {
        Seq::empty()
    } else {
        let rest = lane_targets(lanes.drop_last());
        match lanes.last().clip_id {
            Some(id) => rest.push(track_target(lanes.last().rect, AppAction::SelectRecordingClip(id))),
            None => rest,
        }
    }
}

/// The hover targets of status indicators: each indicator grown by two pixels on every side
/// (sizes held at `u32::MAX`), offering the indicator's action.
pub open spec fn indicator_targets(inds: Seq<TrackIndicator>) -> Seq<(Rect, DiscoverabilityTarget)> {
    Seq::new(inds.len(), |j: int| track_target(
        Rect::made(inds[j].rect.x - 2, inds[j].rect.y - 2,
            if inds[j].rect.w + 4 <= u32::MAX { inds[j].rect.w + 4 } else { u32::MAX as int },
            if inds[j].rect.h + 4 <= u32::MAX { inds[j].rect.h + 4 } else { u32::MAX as int }),
        indicator_action(inds[j].kind)))
}

/// The hover targets of the column pair of `track`, in order: the clip scroll buttons of the
/// stacked view, the recording-view chip, the align, mute and delete buttons of the addressed
/// clip, the lanes of the full and the detail view, the status indicators `inds`, and the thru
/// button.
pub open spec fn spec_track_targets(a: App, l: TimelineTrackLayout, track: Track, inds: Seq<TrackIndicator>) -> Seq<(Rect, DiscoverabilityTarget)> {
    let label = l.full_label_rect;
    let view = view_chip(label);
    let right = Rect::made(view.x - 16, label.y + label.h - 13, 12, 11);
    let left = Rect::made(right.x - 14, label.y + label.h - 13, 12, 11);
    let scroll = if track.recording_view == RecordingView::Stacked {
        seq![track_target(left, AppAction::SelectPreviousRecordingClip), track_target(right, AppAction::SelectNextRecordingClip)]
    } else {
        Seq::empty()
    };
    let clip = if selected_or_only(track) is Some {
        seq![
            track_target(clip_button(label, 0), AppAction::OpenSelectedRecordingClipAlign),
            track_target(clip_button(label, 1), AppAction::ToggleSelectedRecordingClipMute),
            track_target(clip_button(label, 2), AppAction::DeleteSelectedRecordingClip),
        ]
    } else {
        Seq::empty()
    };
    scroll + seq![track_target(view, AppAction::ToggleCurrentTrackRecordingView)] + clip
        + lane_targets(lane_layouts(a, l.full_content_rect, track))
        + lane_targets(lane_layouts(a, l.detail_content_rect, track))
        + indicator_targets(inds)
        + seq![track_target(thru_button(label), AppAction::ToggleCurrentTrackPassthrough)]
}

/// Appends the hover target of a track control.
fn push_track_target(targets: &mut Vec<(Rect, DiscoverabilityTarget)>, rect: Rect, action: AppAction)
    ensures
        final(targets)@ == old(targets)@.push(track_target(rect, action)),
{
    targets.push((rect, DiscoverabilityTarget {
        action,
        display_scope: Some(MappingScope::ActiveTrack),
        allowed_scope: MappingScope::ActiveTrack,
        overlay_slot: None,
    }));
}

/// Appends the hover targets of the lanes that show a clip.
fn push_lane_targets(targets: &mut Vec<(Rect, DiscoverabilityTarget)>, lanes: &Vec<RecordingLaneLayout>)
    ensures
        final(targets)@ == old(targets)@ + lane_targets(lanes@),
{
    let ghost start = targets@;
    let mut k: usize = 0;
    while k < lanes.len()
        invariant
            k <= lanes@.len(),
            targets@ == start + lane_targets(lanes@.take(k as int)),
        decreases lanes@.len() - k,
    {
        let lane = lanes[k];
        proof {
            let next = lanes@.take(k as int + 1);
            assert(next.drop_last() =~= lanes@.take(k as int));
            assert(next.last() == lane);
        }
        match lane.clip_id {
            Some(id) => {
                push_track_target(targets, lane.rect, AppAction::SelectRecordingClip(id));
                assert(targets@ =~= start + lane_targets(lanes@.take(k as int + 1)));
            },
            None => {},
        }
        k = k + 1;
    }
    assert(lanes@.take(k as int) =~= lanes@);
}

/// The action of a status indicator.
pub fn track_indicator_action(kind: TrackIndicatorKind) -> (r: AppAction)
    ensures
        r == indicator_action(kind),
{
    match kind {
        TrackIndicatorKind::Armed => AppAction::ToggleCurrentTrackArm,
        TrackIndicatorKind::Recording => AppAction::ToggleRecording,
        TrackIndicatorKind::Muted => AppAction::ToggleCurrentTrackMute,
        TrackIndicatorKind::Solo => AppAction::ToggleCurrentTrackSolo,
    }
}

/// The action of the first indicator that holds the point.
fn first_indicator_action(inds: &Vec<TrackIndicator>, x: i32, y: i32) -> (r: Option<AppAction>)
    requires
        forall|j: int| 0 <= j < inds@.len() ==> (#[trigger] inds@[j]).rect.wf(),
    ensures
        r == first_indicator_hit(inds@, x as int, y as int, 0),
{
    let mut j: usize = 0;
    while j < inds.len()
        invariant
            j <= inds@.len(),
            forall|m: int| 0 <= m < inds@.len() ==> (#[trigger] inds@[m]).rect.wf(),
            first_indicator_hit(inds@, x as int, y as int, 0) == first_indicator_hit(inds@, x as int, y as int, j as int),
        decreases inds@.len() - j,
    {
        let indicator = inds[j];
        if rect_contains(indicator.rect, x, y) {
            return Some(track_indicator_action(indicator.kind));
        }
        j = j + 1;
    }
    None
}

impl App {
    /// What a press in the column pair of one track lands on.
    fn track_pointer_target_at(&self, l: &TimelineTrackLayout, inds: &Vec<TrackIndicator>, x: i32, y: i32) -> (t: PointerTarget)
        requires
            self.wf(),
            forall|j: int| 0 <= j < inds@.len() ==> (#[trigger] inds@[j]).rect.wf(),
            l.track_index < self.project.tracks@.len(),
            l.full_label_rect.wf(),
            l.full_content_rect.wf(),
            l.detail_content_rect.wf(),
            l.input_fx_rect.wf(),
            l.output_fx_rect.wf(),
            forall|i: int| 0 <= i < self.project.tracks@.len() ==> (#[trigger] self.project.tracks@[i]).recording_clips@.len() < usize::MAX,
        ensures
            t == track_pointer_target(*self, *l, inds@, x as int, y as int),
            t matches PointerTarget::Fx { hit, .. } ==> layout_wf(hit.layout)
                && (hit.context == TimelineContext::InputFx || hit.context == TimelineContext::OutputFx),
    {
        let i = l.track_index;
        let track = &self.project.tracks[i];
        proof {
            assert(self.project.tracks@[i as int].wf());
        }
        let label = l.full_label_rect;
        if let Some(action) = first_indicator_action(inds, x, y) {
            return PointerTarget::Act { track: Some(i), action };
        }
        if rect_contains(self.track_passthrough_button_rect(label), x, y) {
            return PointerTarget::Act { track: Some(i), action: AppAction::ToggleCurrentTrackPassthrough };
        }
        if let Some(action) = self.recording_clip_scroll_control_hit(label, track, x, y) {
            return PointerTarget::Act { track: Some(i), action };
        }
        if rect_contains(self.recording_view_chip_rect(label), x, y) {
            return PointerTarget::Act { track: Some(i), action: AppAction::ToggleCurrentTrackRecordingView };
        }
        if let Some(hit) = self.timeline_fx_hit(TimelineContext::OutputFx, l.output_fx_rect, track, x, y) {
            proof {
                crate::fx_layout::lemma_row_layout_wf(l.output_fx_rect, hit.row_index as int,
                    crate::fx_layout::inspected_row(*track, MidiFxChainKind::Output));
            }
            return PointerTarget::Fx { track_index: i, hit };
        }
        if selected_clip_or_only(track).is_some() {
            let (align_rect, mute_rect, delete_rect) = self.recording_clip_control_rects(label);
            if rect_contains(align_rect, x, y) {
                return PointerTarget::Act { track: Some(i), action: AppAction::OpenSelectedRecordingClipAlign };
            }
            if rect_contains(mute_rect, x, y) {
                return PointerTarget::Act { track: Some(i), action: AppAction::ToggleSelectedRecordingClipMute };
            }
            if rect_contains(delete_rect, x, y) {
                return PointerTarget::Act { track: Some(i), action: AppAction::DeleteSelectedRecordingClip };
            }
        }
        if let Some(hit) = self.timeline_fx_hit(TimelineContext::InputFx, l.input_fx_rect, track, x, y) {
            proof {
                crate::fx_layout::lemma_row_layout_wf(l.input_fx_rect, hit.row_index as int,
                    crate::fx_layout::inspected_row(*track, MidiFxChainKind::Input));
            }
            return PointerTarget::Fx { track_index: i, hit };
        }
        if let Some(id) = self.recording_lane_hit_clip(l.full_content_rect, track, x, y) {
            return PointerTarget::Act { track: Some(i), action: AppAction::SelectRecordingClip(id) };
        }
        if let Some(id) = self.recording_lane_hit_clip(l.detail_content_rect, track, x, y) {
            return PointerTarget::Act { track: Some(i), action: AppAction::SelectRecordingClip(id) };
        }
        PointerTarget::Nothing
    }


    /// The hover targets of the column pair of `track` laid out as `l`.
    pub fn track_discoverability_targets(&self, l: TimelineTrackLayout, track: &Track, inds: &Vec<TrackIndicator>) -> (r: Vec<(Rect, DiscoverabilityTarget)>)
        requires
            forall|j: int| 0 <= j < inds@.len() ==> (#[trigger] inds@[j]).rect.wf(),
            track.wf(),
            l.full_label_rect.wf(),
            l.full_content_rect.wf(),
            l.detail_content_rect.wf(),
            track.recording_clips@.len() < usize::MAX,
        ensures
            r@ == spec_track_targets(*self, l, *track, inds@),
    {
        let label = l.full_label_rect;
        let mut targets: Vec<(Rect, DiscoverabilityTarget)> = Vec::new();
        if track.recording_view == RecordingView::Stacked {
            let (left, right) = self.recording_view_scroll_control_rects(label);
            push_track_target(&mut targets, left, AppAction::SelectPreviousRecordingClip);
            push_track_target(&mut targets, right, AppAction::SelectNextRecordingClip);
        }
        push_track_target(&mut targets, self.recording_view_chip_rect(label), AppAction::ToggleCurrentTrackRecordingView);
        if selected_clip_or_only(track).is_some() {
            let (align_rect, mute_rect, delete_rect) = self.recording_clip_control_rects(label);
            push_track_target(&mut targets, align_rect, AppAction::OpenSelectedRecordingClipAlign);
            push_track_target(&mut targets, mute_rect, AppAction::ToggleSelectedRecordingClipMute);
            push_track_target(&mut targets, delete_rect, AppAction::DeleteSelectedRecordingClip);
        }
        let full_lanes = self.recording_lane_layouts(l.full_content_rect, track);
        push_lane_targets(&mut targets, &full_lanes);
        let detail_lanes = self.recording_lane_layouts(l.detail_content_rect, track);
        push_lane_targets(&mut targets, &detail_lanes);
        let ghost before_indicators = targets@;
        let mut j: usize = 0;
        while j < inds.len()
            invariant
                j <= inds@.len(),
                forall|m: int| 0 <= m < inds@.len() ==> (#[trigger] inds@[m]).rect.wf(),
                targets@ == before_indicators + indicator_targets(inds@).take(j as int),
            decreases inds@.len() - j,
        {
            let rect = inds[j].rect;
            let w: u32 = if rect.w <= u32::MAX - 4 { rect.w + 4 } else { u32::MAX };
            let h: u32 = if rect.h <= u32::MAX - 4 { rect.h + 4 } else { u32::MAX };
            push_track_target(&mut targets, Rect::new(rect.x - 2, rect.y - 2, w, h), track_indicator_action(inds[j].kind));
            assert(indicator_targets(inds@).take(j as int + 1) =~= indicator_targets(inds@).take(j as int).push(indicator_targets(inds@)[j as int]));
            j = j + 1;
        }
        assert(indicator_targets(inds@).take(j as int) =~= indicator_targets(inds@));
        push_track_target(&mut targets, self.track_passthrough_button_rect(label), AppAction::ToggleCurrentTrackPassthrough);
        assert(targets@ =~= spec_track_targets(*self, l, *track, inds@));
        targets
    }

    /// What a press on the timeline page lands on.
    pub fn timeline_pointer_target_at(
        &self,
        header_bounds: Rect,
        transport_bounds: Rect,
        layouts: &[TimelineTrackLayout],
        indicators: &[Vec<TrackIndicator>],
        x: i32,
        y: i32,
    ) -> (t: PointerTarget)
        requires
            self.wf(),
            header_bounds.wf(),
            transport_bounds.wf(),
            layouts_fit(*self, layouts@, indicators@),
            forall|i: int| 0 <= i < self.project.tracks@.len() ==> (#[trigger] self.project.tracks@[i]).recording_clips@.len() < usize::MAX,
        ensures
            t == timeline_pointer_target(*self, header_bounds, transport_bounds, layouts@, indicators@, x as int, y as int),
            t matches PointerTarget::Fx { hit, .. } ==> layout_wf(hit.layout)
                && (hit.context == TimelineContext::InputFx || hit.context == TimelineContext::OutputFx),
    {
        if rect_contains(self.focused_track_view_button_rect(header_bounds), x, y) {
            return PointerTarget::Act { track: None, action: AppAction::ToggleFocusedTrackView };
        }
        let chips = self.transport_chip_actions(transport_bounds);
        let mut c: usize = 0;
        while c < chips.len()
            invariant
                c <= chips@.len(),
                chips@ == self.spec_chip_actions(transport_bounds),
                transport_bounds.wf(),
                !focus_button(header_bounds).contains(x as int, y as int),
                first_chip_hit(chips@, x as int, y as int, 0) == first_chip_hit(chips@, x as int, y as int, c as int),
            decreases chips@.len() - c,
        {
            let (rect, action) = chips[c];
            if rect.x <= x && (x as i64) < rect.x as i64 + rect.w as i64 && rect.y <= y && (y as i64) < rect.y as i64 + rect.h as i64 {
                return PointerTarget::Act { track: None, action };
            }
            c = c + 1;
        }
        let mut k: usize = 0;
        while k < layouts.len()
            invariant
                k <= layouts@.len(),
                self.wf(),
                layouts_fit(*self, layouts@, indicators@),
                !focus_button(header_bounds).contains(x as int, y as int),
                first_chip_hit(self.spec_chip_actions(transport_bounds), x as int, y as int, 0) is None,
                forall|i: int| 0 <= i < self.project.tracks@.len() ==> (#[trigger] self.project.tracks@[i]).recording_clips@.len() < usize::MAX,
                tracks_pointer_target(*self, layouts@, indicators@, x as int, y as int, 0)
                    == tracks_pointer_target(*self, layouts@, indicators@, x as int, y as int, k as int),
            decreases layouts@.len() - k,
        {
            let l = &layouts[k];
            let inds = &indicators[k];
            let t = self.track_pointer_target_at(l, inds, x, y);
            match t {
                PointerTarget::Nothing => {},
                _ => return t,
            }
            k = k + 1;
        }
        PointerTarget::Nothing
    }

    /// Handles a pointer press on the timeline page, laid out as `header_bounds`,
    /// `transport_bounds` and the track columns `layouts`.
    pub fn handle_timeline_pointer(
        &mut self,
        header_bounds: Rect,
        transport_bounds: Rect,
        layouts: &[TimelineTrackLayout],
        indicators: &[Vec<TrackIndicator>],
        x: i32,
        y: i32,
    ) -> (r: Option<AppControl>)
        requires
            old(self).wf(),
            header_bounds.wf(),
            transport_bounds.wf(),
            layouts_fit(*old(self), layouts@, indicators@),
            forall|i: int| 0 <= i < old(self).project.tracks@.len() ==> (#[trigger] old(self).project.tracks@[i]).recording_clips@.len() < usize::MAX,
        ensures
            final(self).wf(),
            timeline_pointer_handled(*old(self), *final(self), header_bounds, transport_bounds, layouts@, indicators@, x as int, y as int, r),
    {
        let target = self.timeline_pointer_target_at(header_bounds, transport_bounds, layouts, indicators, x, y);
        match target {
            PointerTarget::Nothing => None,
            PointerTarget::Act { track, action } => {
                if let Some(i) = track {
                    self.project.active_track_index = i;
                }
                self.apply_action(action)
            },
            PointerTarget::Fx { track_index: track, hit } => {
                let kind = match hit.context {
                    TimelineContext::InputFx => MidiFxChainKind::Input,
                    _ => MidiFxChainKind::Output,
                };
                let was_selected = self.project.active_track_index == track
                    && self.page_state.selected_timeline_context == hit.context
                    && self.selected_timeline_fx_row(kind) == hit.row_index;
                self.project.active_track_index = track;
                self.page_state.selected_timeline_context = hit.context;
                let ghost before_row = *self;
                self.set_selected_timeline_fx_row(kind, hit.row_index);
                let ghost mid = *self;
                assert(before_row == with_active_context(*old(self), track, hit.context));
                let r = self.handle_timeline_fx_pointer_hit(hit, x, y, was_selected);
                assert(fx_row_set(with_active_context(*old(self), track, hit.context), mid, kind, hit.row_index)
                    && fx_pointer_handled(mid, *self, hit, x as int, y as int, was_selected));
                r
            },
        }
    }
}

} // verus!
