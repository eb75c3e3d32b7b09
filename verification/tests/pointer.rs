use trekr::actions::AppAction;
use trekr::app::{App, AppControl};
use trekr::pointer::{MappingScope, TrackIndicator, TrackIndicatorKind};
use trekr::columns::TimelineTrackLayout;
use trekr::geometry::Rect;
use trekr::project::RecordingView;
use trekr::timeline::RecordingTake;

fn layout_for(track_index: usize) -> TimelineTrackLayout {
    TimelineTrackLayout {
        track_index,
        full_bounds: Rect::new(100, 100, 60, 260),
        detail_bounds: Rect::new(162, 100, 60, 260),
        pair_bounds: Rect::new(100, 100, 122, 260),
        status_rect: Rect::new(100, 100, 122, 12),
        body_full_bounds: Rect::new(100, 120, 60, 200),
        body_detail_bounds: Rect::new(162, 120, 60, 200),
        full_label_rect: Rect::new(100, 120, 60, 24),
        detail_label_rect: Rect::new(162, 120, 60, 24),
        full_content_rect: Rect::new(100, 144, 60, 176),
        detail_content_rect: Rect::new(162, 144, 60, 176),
        input_fx_rect: Rect::new(104, 114, 114, 4),
        output_fx_rect: Rect::new(104, 324, 114, 30),
    }
}

fn indicators_for(layouts: &[TimelineTrackLayout]) -> Vec<Vec<TrackIndicator>> {
    layouts
        .iter()
        .map(|l| {
            let s = l.status_rect;
            vec![
                TrackIndicator { kind: TrackIndicatorKind::Armed, rect: Rect::new(s.x + 2, s.y + 1, 24, 10) },
                TrackIndicator { kind: TrackIndicatorKind::Recording, rect: Rect::new(s.x + 28, s.y + 1, 24, 10) },
                TrackIndicator { kind: TrackIndicatorKind::Muted, rect: Rect::new(s.x + 54, s.y + 1, 24, 10) },
                TrackIndicator { kind: TrackIndicatorKind::Solo, rect: Rect::new(s.x + 80, s.y + 1, 24, 10) },
            ]
        })
        .collect()
}

const HEADER: Rect = Rect { x: 0, y: 0, w: 1200, h: 28 };
const TRANSPORT: Rect = Rect { x: 0, y: 34, w: 1200, h: 40 };

#[test]
fn pointer_on_track_view_button_toggles_focused_view() {
    let mut app = App::new();
    let button = app.focused_track_view_button_rect(HEADER);
    let layouts = vec![layout_for(1)];
    let r = app.handle_timeline_pointer(HEADER, TRANSPORT, &layouts, &indicators_for(&layouts), button.x + 2, button.y + 2);
    assert_eq!(r, Some(AppControl::Continue));
    assert!(app.focused_track_view);
}

#[test]
fn pointer_on_a_transport_chip_carries_out_its_action() {
    let mut app = App::new();
    let chips = app.transport_chip_actions(TRANSPORT);
    let (rect, action) = chips[0];
    let mut expected = App::new();
    expected.apply_action(action);
    let layouts = vec![layout_for(1)];
    let r = app.handle_timeline_pointer(HEADER, TRANSPORT, &layouts, &indicators_for(&layouts), rect.x + 1, rect.y + 1);
    assert_eq!(r, Some(AppControl::Continue));
    assert_eq!(app.project.transport, expected.project.transport);
}

#[test]
fn pointer_on_thru_button_activates_track_and_toggles_passthrough() {
    let mut app = App::new();
    let layouts = vec![layout_for(2)];
    let thru = app.track_passthrough_button_rect(layouts[0].full_label_rect);
    let r = app.handle_timeline_pointer(HEADER, TRANSPORT, &layouts, &indicators_for(&layouts), thru.x + 1, thru.y + 1);
    assert_eq!(r, Some(AppControl::Continue));
    assert_eq!(app.project.active_track_index, 2);
    assert!(app.project.tracks[2].state.passthrough);
}

#[test]
fn pointer_on_a_lane_selects_its_clip() {
    let mut app = App::new();
    let transport = app.project.transport;
    {
        let track = &mut app.project.tracks[1];
        track.clear_content();
        track.recording_view = RecordingView::Stacked;
        track.commit_take(transport, RecordingTake::new(0).release(240), None);
        track.commit_take(transport, RecordingTake::new(480).release(720), None);
    }
    let first_id = app.project.tracks[1].recording_clips[0].id;
    let layouts = vec![layout_for(1)];
    let lanes = app.recording_lane_layouts(layouts[0].full_content_rect, &app.project.tracks[1]);
    let lane = lanes[0].rect;
    let r = app.handle_timeline_pointer(HEADER, TRANSPORT, &layouts, &indicators_for(&layouts), lane.x + 1, lane.y + 60);
    assert_eq!(r, Some(AppControl::Continue));
    assert_eq!(app.project.active_track_index, 1);
    assert_eq!(app.project.tracks[1].selected_recording_clip_id, Some(first_id));
}

#[test]
fn pointer_on_nothing_changes_nothing() {
    let mut app = App::new();
    let layouts = vec![layout_for(1)];
    let r = app.handle_timeline_pointer(HEADER, TRANSPORT, &layouts, &indicators_for(&layouts), 1190, 500);
    assert_eq!(r, None);
    assert_eq!(app.project.active_track_index, 0);
}

#[test]
fn track_hover_targets_list_the_controls_in_order() {
    let mut app = App::new();
    let transport = app.project.transport;
    {
        let track = &mut app.project.tracks[1];
        track.clear_content();
        track.recording_view = RecordingView::Stacked;
        track.commit_take(transport, RecordingTake::new(0).release(240), None);
    }
    let layout = layout_for(1);
    let track = &app.project.tracks[1];
    let clip_id = track.recording_clips[0].id;
    let inds = indicators_for(&[layout]);
    let targets = app.track_discoverability_targets(layout, track, &inds[0]);
    let actions: Vec<AppAction> = targets.iter().map(|(_, t)| t.action).collect();
    assert_eq!(actions, vec![
        AppAction::SelectPreviousRecordingClip,
        AppAction::SelectNextRecordingClip,
        AppAction::ToggleCurrentTrackRecordingView,
        AppAction::OpenSelectedRecordingClipAlign,
        AppAction::ToggleSelectedRecordingClipMute,
        AppAction::DeleteSelectedRecordingClip,
        AppAction::SelectRecordingClip(clip_id),
        AppAction::SelectRecordingClip(clip_id),
        AppAction::ToggleCurrentTrackArm,
        AppAction::ToggleRecording,
        AppAction::ToggleCurrentTrackMute,
        AppAction::ToggleCurrentTrackSolo,
        AppAction::ToggleCurrentTrackPassthrough,
    ]);
    let arm = inds[0][0].rect;
    assert_eq!(targets[8].0, Rect::new(arm.x - 2, arm.y - 2, arm.w + 4, arm.h + 4));
    assert!(targets.iter().all(|(_, t)| t.allowed_scope == MappingScope::ActiveTrack));
    assert_eq!(targets[2].0, app.recording_view_chip_rect(layout.full_label_rect));
}

#[test]
fn pointer_on_arm_indicator_selects_and_arms_that_track() {
    let mut app = App::new();
    let layouts = vec![layout_for(1)];
    let indicators = indicators_for(&layouts);
    let arm = indicators[0][0].rect;
    let r = app.handle_timeline_pointer(HEADER, TRANSPORT, &layouts, &indicators, arm.x + arm.w as i32 / 2, arm.y + arm.h as i32 / 2);
    assert_eq!(r, Some(AppControl::Continue));
    assert_eq!(app.project.active_track_index, 1);
    assert!(app.project.tracks[1].state.armed);
}

#[test]
fn pointer_on_record_indicator_starts_recording_for_that_track() {
    let mut app = App::new();
    let layouts = vec![layout_for(2)];
    let indicators = indicators_for(&layouts);
    let rec = indicators[0][1].rect;
    let r = app.handle_timeline_pointer(HEADER, TRANSPORT, &layouts, &indicators, rec.x + rec.w as i32 / 2, rec.y + rec.h as i32 / 2);
    assert_eq!(r, Some(AppControl::Continue));
    assert_eq!(app.project.active_track_index, 2);
    assert!(app.project.transport.recording);
    assert!(app.project.transport.playing);
    assert!(app.project.tracks[2].active_take.is_some());
}
