use trekr::actions::AppAction;
use trekr::app::App;
use trekr::geometry::Rect;
use trekr::lanes::indexed_notes;
use trekr::project::{MidiNote, QuantizeMode, RecordingView};
use trekr::timeline::{LoopRegion, RecordingTake, Region};

fn region_span(region: Region) -> (u64, u64) {
    (region.start_ticks, region.length_ticks)
}

fn two_clip_app() -> App {
    let mut app = App::new();
    let transport = app.project.transport;
    {
        let track = app.project.active_track_mut().unwrap();
        track.clear_content();
        track.commit_take(transport, RecordingTake::new(0).release(480), None);
        track.commit_take(transport, RecordingTake::new(960).release(1_440), None);
    }
    app
}

fn check_recording_clip_actions() {
    let mut app = two_clip_app();

    app.apply_action(AppAction::ToggleCurrentTrackRecordingView);
    assert_eq!(app.project.active_track().unwrap().recording_view, RecordingView::Stacked);

    app.apply_action(AppAction::SelectPreviousRecordingClip);
    let selected_before_delete = app
        .project
        .active_track()
        .unwrap()
        .selected_recording_clip_id
        .expect("selected clip");
    app.apply_action(AppAction::ToggleSelectedRecordingClipMute);
    assert!(app.project.active_track().unwrap().selected_recording_clip().unwrap().muted);

    app.apply_action(AppAction::DeleteSelectedRecordingClip);
    let active = app.project.active_track().unwrap();
    assert_eq!(active.recording_clips.len(), 1);
    assert_ne!(active.recording_clips[0].id, selected_before_delete);
}

#[test]
fn recording_recording_clip_actions_update_active_track_clip_state() {
    check_recording_clip_actions();
}

#[test]
fn timeline_recording_recording_clip_actions_update_active_track_clip_state() {
    check_recording_clip_actions();
}

#[test]
fn recording_targets_armed_tracks_before_active_track() {
    let mut app = App::new();
    app.project.clear_all_track_content();
    app.project.select_track(0);
    app.project.tracks[2].state.armed = true;

    app.apply_action(AppAction::ToggleRecording);
    assert!(app.project.tracks[2].active_take.is_some());
    assert!(app.project.tracks[0].active_take.is_none());

    app.transport_ticks = 960;
    app.playhead_ticks = 960;
    app.apply_action(AppAction::ToggleRecording);

    assert!(!app.project.tracks[2].regions.is_empty());
    assert!(app.project.tracks[0].regions.is_empty());
}

#[test]
fn stopping_playback_commits_active_recording() {
    let mut app = App::new();
    app.project.active_track_mut().unwrap().clear_content();

    app.apply_action(AppAction::ToggleRecording);
    app.transport_ticks = 960;
    app.playhead_ticks = 960;
    app.apply_action(AppAction::TogglePlayback);

    assert!(!app.project.transport.recording);
    assert!(!app.project.transport.playing);
    assert!(!app.project.active_track().unwrap().regions.is_empty());
    assert!(app.project.active_track().unwrap().active_take.is_none());
}

#[test]
fn looped_track_recording_commits_inside_track_loop() {
    let mut app = App::new();
    let track = app.project.active_track_mut().unwrap();
    track.clear_content();
    track.state.loop_enabled = true;
    track.loop_region = LoopRegion::new(960, 960);
    app.project.transport.quantize = QuantizeMode::Off;
    app.project.transport.loop_enabled = false;
    app.project.transport.loop_recording_extends_clip = false;
    app.transport_ticks = 1_680;
    app.playhead_ticks = 1_680;

    app.apply_action(AppAction::ToggleRecording);
    app.transport_ticks = 2_160;
    app.playhead_ticks = 1_200;
    app.apply_action(AppAction::ToggleRecording);

    let regions = &app.project.active_track().unwrap().regions;
    assert_eq!(regions.len(), 1);
    assert_eq!(region_span(regions[0]), (1_680, 240));
}

#[test]
fn looped_track_recording_can_extend_clip_after_wrap() {
    let mut app = App::new();
    let track = app.project.active_track_mut().unwrap();
    track.clear_content();
    track.state.loop_enabled = true;
    track.loop_region = LoopRegion::new(960, 960);
    app.project.transport.quantize = QuantizeMode::Off;
    app.project.transport.loop_enabled = false;
    app.project.transport.loop_recording_extends_clip = true;
    app.transport_ticks = 1_680;
    app.playhead_ticks = 1_680;

    app.apply_action(AppAction::ToggleRecording);
    app.transport_ticks = 2_160;
    app.playhead_ticks = 1_200;
    app.apply_action(AppAction::ToggleRecording);

    let regions = &app.project.active_track().unwrap().regions;
    assert_eq!(regions.len(), 1);
    assert_eq!(region_span(regions[0]), (960, 960));
}

#[test]
fn looped_track_recording_preview_rebases_to_loop_start_after_wrap() {
    let mut app = App::new();
    let track = app.project.active_track_mut().unwrap();
    track.clear_content();
    track.state.loop_enabled = true;
    track.loop_region = LoopRegion::new(960, 960);
    app.project.transport.quantize = QuantizeMode::Off;
    app.project.transport.loop_enabled = false;
    app.project.transport.loop_recording_extends_clip = true;
    app.transport_ticks = 1_680;
    app.playhead_ticks = 1_680;

    app.apply_action(AppAction::ToggleRecording);
    app.transport_ticks = 2_160;
    app.playhead_ticks = 1_200;

    let active_track = app.project.active_track().unwrap();
    let preview = active_track.preview_region(
        app.project.transport,
        app.record_capture_ticks(active_track),
        app.record_context(active_track),
    );

    assert_eq!(preview.map(region_span), Some((960, 960)));
}

#[test]
fn detail_loop_range_uses_global_loop_when_track_loop_is_disabled() {
    let mut app = App::new();
    app.project.loop_region = LoopRegion::new(960, 960);
    app.project.transport.loop_enabled = true;
    let track = app.project.active_track_mut().unwrap();
    track.state.loop_enabled = false;
    track.loop_region = LoopRegion::new(0, 3_840);

    let detail_range = app.detail_loop_range(app.project.active_track().unwrap());

    assert_eq!(detail_range, LoopRegion::new(960, 960));
}

#[test]
fn record_context_prefers_track_loop_over_global_loop_when_both_are_enabled() {
    let mut app = App::new();
    app.project.loop_region = LoopRegion::new(960, 960);
    app.project.transport.loop_enabled = true;
    let track = app.project.active_track_mut().unwrap();
    track.state.loop_enabled = true;
    track.loop_region = LoopRegion::new(0, 3_840);

    let record_context = app.record_context(app.project.active_track().unwrap()).unwrap();

    assert_eq!(record_context.range, LoopRegion::new(0, 3_840));
    assert_eq!(record_context.wrap_basis_ticks, 0);
}

#[test]
fn record_context_uses_transport_phase_for_track_loops_with_offset_start() {
    let mut app = App::new();
    app.project.transport.loop_enabled = false;
    let track = app.project.active_track_mut().unwrap();
    track.state.loop_enabled = true;
    track.loop_region = LoopRegion::new(240, 960);

    let record_context = app.record_context(app.project.active_track().unwrap()).unwrap();

    assert_eq!(record_context.range, LoopRegion::new(240, 960));
    assert_eq!(record_context.wrap_basis_ticks, 0);
}

#[test]
fn track_loop_recording_with_offset_start_commits_at_audible_playhead() {
    let mut app = App::new();
    app.project.transport.quantize = QuantizeMode::Off;
    app.project.transport.loop_enabled = false;
    let track = app.project.active_track_mut().unwrap();
    track.clear_content();
    track.state.loop_enabled = true;
    track.loop_region = LoopRegion::new(240, 960);

    app.transport_ticks = 1_140;
    app.playhead_ticks = app.effective_track_playhead(app.project.active_track().unwrap());
    app.apply_action(AppAction::ToggleRecording);
    app.transport_ticks = 1_260;
    app.playhead_ticks = app.effective_track_playhead(app.project.active_track().unwrap());
    app.apply_action(AppAction::ToggleRecording);

    let committed = app.project.active_track().unwrap().regions.last().copied().unwrap();
    assert_eq!(region_span(committed), (420, 120));
}

#[test]
fn looped_track_preview_clamps_to_loop_end_when_extension_is_off() {
    let mut app = App::new();
    let track = app.project.active_track_mut().unwrap();
    track.clear_content();
    track.state.loop_enabled = true;
    track.loop_region = LoopRegion::new(2_880, 1_920);
    app.project.transport.quantize = QuantizeMode::Off;
    app.project.transport.loop_enabled = false;
    app.project.transport.loop_recording_extends_clip = false;
    app.transport_ticks = 5_600;
    app.playhead_ticks = 5_600;

    app.apply_action(AppAction::ToggleRecording);
    app.transport_ticks = 5_900;
    app.playhead_ticks = 2_980;

    let active_track = app.project.active_track().unwrap();
    let preview = active_track.preview_region(
        app.project.transport,
        app.record_capture_ticks(active_track),
        app.record_context(active_track),
    );

    assert_eq!(preview, Some(Region::new(4_640, 160)));
}

#[test]
fn song_loop_recording_wraps_at_the_song_loop_start() {
    let mut app = App::new();
    app.project.active_track_mut().unwrap().clear_content();
    app.project.loop_region = LoopRegion::new(960, 960);
    app.project.transport.loop_enabled = true;
    app.project.transport.loop_recording_extends_clip = false;
    app.transport_ticks = 1_680;

    app.apply_action(AppAction::ToggleRecording);
    app.transport_ticks = 2_160;
    app.apply_action(AppAction::ToggleRecording);

    let regions = &app.project.active_track().unwrap().regions;
    assert_eq!(region_span(regions[0]), (1_680, 240));
}

#[test]
fn recording_without_a_loop_uses_the_song_playhead() {
    let mut app = App::new();
    app.project.active_track_mut().unwrap().clear_content();
    app.playhead_ticks = 100;
    app.transport_ticks = 5_000;

    app.apply_action(AppAction::ToggleRecording);
    assert!(app.project.transport.recording && app.project.transport.playing);
    app.playhead_ticks = 700;
    app.apply_action(AppAction::ToggleRecording);

    let regions = &app.project.active_track().unwrap().regions;
    assert_eq!(region_span(regions[0]), (100, 600));
    assert!(!app.project.transport.recording);
}

#[test]
fn empty_pass_commits_nothing() {
    let mut app = App::new();
    app.project.active_track_mut().unwrap().clear_content();
    app.playhead_ticks = 400;
    app.apply_action(AppAction::ToggleRecording);
    app.apply_action(AppAction::ToggleRecording);
    assert!(app.project.active_track().unwrap().regions.is_empty());
    assert!(app.project.active_track().unwrap().recording_clips.is_empty());
}

#[test]
fn live_input_uses_the_free_clock_while_stopped() {
    let mut app = App::new();
    app.live_fx_ticks = 77;
    app.playhead_ticks = 300;
    let track = app.project.active_track().unwrap();
    assert_eq!(app.live_input_event_ticks(track), 77);
    app.project.transport.playing = true;
    let track = app.project.active_track().unwrap();
    assert_eq!(app.live_input_event_ticks(track), 300);
}

#[test]
fn record_targets_fall_back_to_the_active_track() {
    let mut app = App::new();
    app.project.select_track(3);
    assert_eq!(app.record_target_indices(), vec![3]);
    app.project.tracks[1].state.armed = true;
    app.project.tracks[2].state.armed = true;
    assert_eq!(app.record_target_indices(), vec![1, 2]);
}

#[test]
fn stacked_lane_window_keeps_the_preview_lane_visible() {
    let mut app = App::new();
    let transport = app.project.transport;
    let track = app.project.active_track_mut().unwrap();
    track.clear_content();
    track.recording_view = RecordingView::Stacked;
    for index in 0..5u64 {
        let start = index * 480;
        track.commit_take(transport, RecordingTake::new(start).release(start + 240), None);
    }
    track.recording_clip_scroll = 2;
    track.active_take = Some(RecordingTake::new(2_400));

    let content_rect = Rect::new(0, 0, 49, 200);
    assert_eq!(app.recording_lane_capacity(content_rect), 3);
    let window = app.recording_lane_window(app.project.active_track().unwrap(), 3);
    assert_eq!(window.start, 3);
    assert_eq!(window.visible_total, 3);
    assert_eq!((window.committed_start, window.committed_end), (3, 5));
    assert_eq!(window.visible_committed, 2);
    assert!(window.show_preview);
}

#[test]
fn stacked_scrollbar_thumb_moves_with_the_clip_window() {
    let mut app = App::new();
    let transport = app.project.transport;
    {
        let track = app.project.active_track_mut().unwrap();
        track.clear_content();
        track.recording_view = RecordingView::Stacked;
        for index in 0..5u64 {
            let start = index * 480;
            track.commit_take(transport, RecordingTake::new(start).release(start + 240), None);
        }
        track.recording_clip_scroll = 0;
    }
    let content_rect = Rect::new(10, 20, 49, 200);
    let (rail, thumb_before) = app
        .recording_clip_scrollbar_rects(content_rect, app.project.active_track().unwrap())
        .expect("scrollbar");
    assert_eq!(rail, Rect::new(14, 20, 41, 2));
    assert_eq!(thumb_before, Rect::new(14, 20, 24, 2));

    app.project.active_track_mut().unwrap().recording_clip_scroll = 2;
    let (_, thumb_after) = app
        .recording_clip_scrollbar_rects(content_rect, app.project.active_track().unwrap())
        .expect("scrollbar");
    assert_eq!(thumb_after, Rect::new(31, 20, 24, 2));
    assert!(thumb_after.x > thumb_before.x);
}

#[test]
fn overlay_view_has_no_scrollbar() {
    let app = two_clip_app();
    assert!(app
        .recording_clip_scrollbar_rects(Rect::new(0, 0, 100, 100), app.project.active_track().unwrap())
        .is_none());
}

#[test]
fn clip_scroll_follows_the_selected_clip() {
    let mut app = App::new();
    let transport = app.project.transport;
    {
        let track = app.project.active_track_mut().unwrap();
        track.clear_content();
        for index in 0..6u64 {
            let start = index * 480;
            track.commit_take(transport, RecordingTake::new(start).release(start + 240), None);
        }
        track.recording_clip_scroll = 0;
    }
    app.sync_active_track_recording_clip_scroll(2);
    assert_eq!(app.project.active_track().unwrap().recording_clip_scroll, 4);
    app.apply_action(AppAction::SelectPreviousRecordingClip);
    app.apply_action(AppAction::SelectPreviousRecordingClip);
    app.apply_action(AppAction::SelectPreviousRecordingClip);
    app.sync_active_track_recording_clip_scroll(2);
    assert_eq!(app.project.active_track().unwrap().recording_clip_scroll, 2);
}

#[test]
fn indexed_notes_keep_positions_of_each_lane() {
    let mut app = App::new();
    let track = app.project.active_track_mut().unwrap();
    track.clear_content();
    track.midi_notes = vec![
        MidiNote::new_recorded(60, 0, 120, 100, 1),
        MidiNote { pitch: 62, start_ticks: 120, length_ticks: 60, velocity: 90, recording_clip_id: None },
        MidiNote::new_recorded(64, 240, 120, 80, 2),
        MidiNote::new_recorded(65, 480, 120, 70, 1),
    ];
    let track = app.project.active_track().unwrap();

    let first: Vec<(usize, u8)> = indexed_notes(track, Some(1)).iter().map(|(i, n)| (*i, n.pitch)).collect();
    assert_eq!(first, vec![(0, 60), (3, 65)]);
    let unowned: Vec<(usize, u8)> = indexed_notes(track, None).iter().map(|(i, n)| (*i, n.pitch)).collect();
    assert_eq!(unowned, vec![(1, 62)]);
    assert!(indexed_notes(track, Some(7)).is_empty());
}

fn check_preview_lane_shifts_window() {
    let mut app = App::new();
    let transport = app.project.transport;
    let trailing_clip_ids = {
        let track = app.project.active_track_mut().unwrap();
        track.clear_content();
        track.recording_view = RecordingView::Stacked;
        for index in 0..5u64 {
            let start = index * 480;
            track.commit_take(transport, RecordingTake::new(start).release(start + 240), None);
        }
        let trailing = vec![track.recording_clips[3].id, track.recording_clips[4].id];
        track.recording_clip_scroll = 2;
        track.active_take = Some(RecordingTake::new(2400));
        trailing
    };

    let content_rect = Rect::new(0, 0, 49, 200);
    assert_eq!(app.recording_lane_capacity(content_rect), 3);
    let layouts = app.recording_lane_layouts(content_rect, app.project.active_track().unwrap());

    assert_eq!(layouts.len(), 3);
    assert_eq!(layouts[0].clip_id, Some(trailing_clip_ids[0]));
    assert_eq!(layouts[1].clip_id, Some(trailing_clip_ids[1]));
    assert!(layouts[2].preview);
}

#[test]
fn recording_stacked_view_preview_lane_shifts_visible_window_as_committed() {
    check_preview_lane_shifts_window();
}

#[test]
fn timeline_recording_stacked_view_preview_lane_shifts_visible_window_as_committed() {
    check_preview_lane_shifts_window();
}

#[test]
fn clicking_a_lane_finds_its_clip_and_the_preview_lane_finds_none() {
    let mut app = App::new();
    let transport = app.project.transport;
    {
        let track = app.project.active_track_mut().unwrap();
        track.clear_content();
        track.recording_view = RecordingView::Stacked;
        track.commit_take(transport, RecordingTake::new(0).release(240), None);
        track.commit_take(transport, RecordingTake::new(480).release(720), None);
        track.active_take = Some(RecordingTake::new(960));
    }
    let content_rect = Rect::new(10, 20, 92, 100);
    let track = app.project.active_track().unwrap();
    let layouts = app.recording_lane_layouts(content_rect, track);
    assert_eq!(layouts.len(), 3);
    // three lanes of (92 - 4) / 3 = 29 pixels, two apart
    assert_eq!((layouts[0].rect.x, layouts[0].rect.w), (10, 29));
    assert_eq!((layouts[1].rect.x, layouts[1].rect.w), (41, 29));
    assert_eq!((layouts[2].rect.x, layouts[2].rect.w), (72, 29));
    assert!(layouts[1].selected);
    assert_eq!(app.recording_lane_hit_clip(content_rect, track, 12, 30), Some(track.recording_clips[0].id));
    assert_eq!(app.recording_lane_hit_clip(content_rect, track, 45, 30), Some(track.recording_clips[1].id));
    assert_eq!(app.recording_lane_hit_clip(content_rect, track, 75, 30), None);
    assert_eq!(app.recording_lane_hit_clip(content_rect, track, 40, 30), None);
}
