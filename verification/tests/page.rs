use trekr::actions::AppAction;
use trekr::app::{App, TimelineContext};
use trekr::clip_align::{ClipAlignField, ClipAlignTargetLength};
use trekr::columns::{TimelineTrackLayout, union_rect};
use trekr::geometry::{Color, Rect, interlaced_color_at, rect_contains, rects_overlap};
use trekr::project::{MidiNote, RecordingClip, RecordingView};
use trekr::timeline::{RecordingTake, Region};
use trekr::track_strip::{timeline_subcolumn_content_rect, timeline_subcolumn_label_rect};
use trekr::transport_strip::TransportStripLayout;

fn check_focused_track_view() {
    let mut app = App::new();
    assert_eq!(app.visible_track_indices().len(), app.project.tracks.len());

    app.apply_action(AppAction::SelectTrack(2));
    app.apply_action(AppAction::ToggleFocusedTrackView);

    let visible = app.visible_track_indices();
    assert_eq!(visible.len(), 1);
    assert_eq!(visible[0], 2);
}

#[test]
fn page_focused_track_view_limits_timeline_to_active_track() {
    check_focused_track_view();
}

#[test]
fn timeline_page_focused_track_view_limits_timeline_to_active_track() {
    check_focused_track_view();
}

fn check_transport_chip_specs() {
    let mut app = App::new();
    let labels = app
        .transport_button_specs()
        .into_iter()
        .map(|chip| (chip.label, chip.sublabel.unwrap_or_default()))
        .collect::<Vec<_>>();
    assert!(labels.iter().any(|(label, value)| *label == "Rec Wrap" && value == "Ext"));
    assert!(labels.iter().any(|(label, value)| *label == "Harmony" && value == "C"));

    app.apply_action(AppAction::ToggleLoopRecordingExtension);
    let labels = app
        .transport_button_specs()
        .into_iter()
        .map(|chip| (chip.label, chip.sublabel.unwrap_or_default()))
        .collect::<Vec<_>>();
    assert!(labels.iter().any(|(label, value)| *label == "Rec Wrap" && value == "Clamp"));
}

#[test]
fn page_transport_chip_specs_include_visible_loop_recording_wrap_status() {
    check_transport_chip_specs();
}

#[test]
fn timeline_page_transport_chip_specs_include_visible_loop_recording_wrap_status() {
    check_transport_chip_specs();
}

#[test]
fn wide_transport_layout_caps_button_width() {
    let layout = TransportStripLayout {
        buttons_bounds: Rect::new(40, 40, 1400, 36),
        tempo_pad_bounds: Rect::new(1446, 40, 98, 36),
        status_text_bounds: Rect::new(1550, 40, 84, 36),
    };

    let first = layout.button_rect(0, 10).expect("first button");
    let last = layout.button_rect(9, 10).expect("last button");

    assert_eq!(first.width(), 74);
    assert_eq!(last.width(), 74);
    assert_eq!(first.x, layout.buttons_bounds.x);
    assert!(last.x + (last.width() as i32) < layout.buttons_bounds.x + layout.buttons_bounds.width() as i32);
}

#[test]
fn transport_actions_stay_inside_the_strip() {
    let app = App::new();
    for width in [300u32, 640, 1200] {
        for height in [18u32, 28, 40] {
            let bounds = Rect::new(40, 40, width, height);
            let actions = app.transport_chip_actions(bounds);
            assert_eq!(actions.len(), 10);
            for (rect, _) in actions {
                assert!(rect.x >= bounds.x);
                assert!(rect.y >= bounds.y);
                assert!(rect.x + rect.width() as i32 <= bounds.x + bounds.width() as i32);
                assert!(rect.y + rect.height() as i32 <= bounds.y + bounds.height() as i32);
            }
        }
    }
}

#[test]
fn transport_actions_list_chips_then_tempo_pad() {
    let app = App::new();
    let actions = app.transport_chip_actions(Rect::new(0, 0, 1200, 40));
    let kinds: Vec<AppAction> = actions.iter().map(|(_, action)| *action).collect();
    assert_eq!(
        kinds,
        vec![
            AppAction::TogglePlayback,
            AppAction::ToggleRecording,
            AppAction::ToggleLoopRecordingExtension,
            AppAction::ToggleSongLoop,
            AppAction::CycleHarmonyRoot,
            AppAction::DecreaseTempo,
            AppAction::IncreaseTempo,
            AppAction::HalfTempo,
            AppAction::DoubleTempo,
            AppAction::TapTempo,
        ]
    );
    assert_eq!(actions[0].0, Rect::new(2, 3, 74, 34));
    assert_eq!(actions[5].0, Rect::new(984, 3, 32, 17));
    assert_eq!(actions[9].0, Rect::new(1016, 3, 34, 34));
}

#[test]
fn harmony_chip_names_the_root_after_cycling() {
    let mut app = App::new();
    for _ in 0..13 {
        app.apply_action(AppAction::CycleHarmonyRoot);
    }
    assert_eq!(app.project.transport.harmony_root, 1);
    let specs = app.transport_button_specs();
    assert_eq!(specs[4].sublabel.as_deref(), Some("C#"));
}

#[test]
fn tempo_actions_are_left_to_the_host() {
    let mut app = App::new();
    assert!(app.apply_action(AppAction::TapTempo).is_none());
    assert!(app.apply_action(AppAction::ToggleSongLoop).is_some());
    assert!(app.project.transport.loop_enabled);
}

#[test]
fn header_buttons_sit_at_the_right_of_the_header() {
    let app = App::new();
    let header = Rect::new(40, 40, 1200, 28);
    assert_eq!(app.global_loop_reset_button_rect(header), Rect::new(1124, 43, 108, 22));
    assert_eq!(app.focused_track_view_button_rect(header), Rect::new(1000, 43, 78, 22));
}

#[test]
fn interlaced_color_pattern_cycles_proportionally() {
    let b = Color::rgb(0, 0, 255);
    let r = Color::rgb(255, 0, 0);
    let g = Color::rgb(0, 255, 0);

    let two = [b, r];
    assert_eq!((0..4).filter_map(|pixel| interlaced_color_at(&two, pixel)).collect::<Vec<_>>(), vec![b, r, b, r]);

    let three = [r, b, g];
    assert_eq!(
        (0..6).filter_map(|pixel| interlaced_color_at(&three, pixel)).collect::<Vec<_>>(),
        vec![r, b, g, r, b, g]
    );
}

#[test]
fn thru_button_sits_in_the_label_strip_above_the_content() {
    let app = App::new();
    let lane = Rect::new(100, 200, 140, 300);
    let flow = app.timeline_flow;
    let label_rect = timeline_subcolumn_label_rect(lane, flow);
    let content_rect = timeline_subcolumn_content_rect(lane, flow);
    let thru_rect = app.track_passthrough_button_rect(label_rect);
    assert!(rect_contains(
        label_rect,
        thru_rect.x + thru_rect.width() as i32 / 2,
        thru_rect.y + thru_rect.height() as i32 / 2,
    ));
    assert!(!rects_overlap(thru_rect, content_rect));
    assert!(!rects_overlap(label_rect, content_rect));
    assert_eq!(thru_rect, Rect::new(104, 201, 30, 11));
}

#[test]
fn label_strip_controls_line_up_from_the_right() {
    let app = App::new();
    let label = Rect::new(0, 0, 140, 24);
    assert_eq!(app.recording_view_chip_rect(label), Rect::new(110, 11, 26, 11));
    let (left, right) = app.recording_view_scroll_control_rects(label);
    assert_eq!(right, Rect::new(94, 11, 12, 11));
    assert_eq!(left, Rect::new(80, 11, 12, 11));
    let (align, mute, delete) = app.recording_clip_control_rects(label);
    assert_eq!(align, Rect::new(92, 1, 12, 11));
    assert_eq!(mute, Rect::new(108, 1, 12, 11));
    assert_eq!(delete, Rect::new(124, 1, 12, 11));
    let slots = app.stored_loop_slot_rects(label);
    assert_eq!(slots.len(), 8);
    assert_eq!(slots[7], (7, Rect::new(88, 0, 10, 11)));
    assert_eq!(app.stored_loop_slot_rects(Rect::new(0, 0, 60, 24)).len(), 2);
    assert!(app.stored_loop_slot_rects(Rect::new(0, 0, 40, 24)).is_empty());
}

#[test]
fn clip_paging_buttons_answer_only_with_a_clip_to_move_to() {
    let mut app = App::new();
    let transport = app.project.transport;
    {
        let track = app.project.active_track_mut().unwrap();
        track.clear_content();
        track.commit_take(transport, RecordingTake::new(0).release(480), None);
        track.commit_take(transport, RecordingTake::new(960).release(1_440), None);
    }
    let label = Rect::new(0, 0, 140, 24);
    let track = app.project.active_track().unwrap();
    assert_eq!(app.recording_clip_scroll_control_hit(label, track, 85, 15), None);
    app.project.active_track_mut().unwrap().recording_view = RecordingView::Stacked;
    let track = app.project.active_track().unwrap();
    assert_eq!(app.recording_clip_scroll_control_hit(label, track, 85, 15), Some(AppAction::SelectPreviousRecordingClip));
    assert_eq!(app.recording_clip_scroll_control_hit(label, track, 99, 15), None);
}

#[test]
fn context_indicator_sits_left_of_the_selected_context() {
    let mut app = App::new();
    let body_full = Rect::new(100, 120, 60, 200);
    let body_detail = Rect::new(162, 120, 60, 200);
    let layout = TimelineTrackLayout {
        track_index: 0,
        full_bounds: Rect::new(100, 100, 60, 260),
        detail_bounds: Rect::new(162, 100, 60, 260),
        pair_bounds: Rect::new(100, 100, 122, 260),
        status_rect: Rect::new(100, 100, 122, 12),
        body_full_bounds: body_full,
        body_detail_bounds: body_detail,
        full_label_rect: Rect::new(100, 120, 60, 24),
        detail_label_rect: Rect::new(162, 120, 60, 24),
        full_content_rect: Rect::new(100, 144, 60, 176),
        detail_content_rect: Rect::new(162, 144, 60, 176),
        input_fx_rect: Rect::new(104, 114, 114, 4),
        output_fx_rect: Rect::new(104, 324, 114, 30),
    };
    app.page_state.selected_timeline_context = TimelineContext::TrackTimeline;
    let context_rect = layout.fx_rect(app.page_state.selected_timeline_context);
    assert_eq!(context_rect, union_rect(body_full, body_detail));
    assert_eq!(context_rect, Rect::new(100, 120, 122, 200));
    let indicator = app.timeline_context_indicator_rect_for_layout(layout).expect("indicator rect");
    assert_eq!(indicator.width(), 1);
    assert_eq!(indicator.height(), context_rect.height());
    assert_eq!(indicator.y, context_rect.y);
    assert_eq!(indicator.x + indicator.width() as i32 + 1, context_rect.x);
    app.page_state.selected_timeline_context = TimelineContext::OutputFx;
    let indicator = app.timeline_context_indicator_rect_for_layout(layout).expect("indicator rect");
    assert_eq!(indicator, Rect::new(102, 324, 1, 30));
}

#[test]
fn clip_align_action_opens_and_applies_for_selected_clip() {
    let mut app = App::new();
    let transport = app.project.transport;
    {
        let track = app.project.active_track_mut().unwrap();
        track.clear_content();
        track.commit_take(transport, RecordingTake::new(0).release(960), None);
        track.recording_view = RecordingView::Stacked;
    }

    app.apply_action(AppAction::OpenSelectedRecordingClipAlign);
    assert!(app.clip_align_session.is_some());

    app.apply_action(AppAction::AdjustClipAlignFieldForward);
    app.apply_action(AppAction::ApplyRecordingClipAlign);

    assert!(app.clip_align_session.is_none());
    assert_eq!(app.project.active_track().unwrap().loop_region.length_ticks, 3_840);
}

#[test]
fn opening_clip_align_uses_tempo_aware_target_length_suggestion() {
    let mut app = App::new();
    let transport = app.project.transport;
    {
        let track = app.project.active_track_mut().unwrap();
        track.clear_content();
        track.recording_clips = vec![RecordingClip {
            id: 1,
            region: Region::new_recorded(0, 3_700, 1),
            muted: false,
            native_start_ticks: 0,
            native_end_ticks: 3_700,
            native_duration_ticks: 3_700,
            native_capture_tempo_bpm: transport.tempo_bpm,
        }];
        track.selected_recording_clip_id = Some(1);
        track.midi_notes = vec![MidiNote::new_recorded(60, 0, 120, 100, 1), MidiNote::new_recorded(62, 3_700, 120, 100, 1)];
        track.recording_view = RecordingView::Stacked;
    }
    app.clip_align_defaults.target_length = ClipAlignTargetLength::Bar8;

    app.apply_action(AppAction::OpenSelectedRecordingClipAlign);

    assert_eq!(
        app.clip_align_session.as_ref().map(|session| session.settings.target_length),
        Some(ClipAlignTargetLength::Bar1)
    );
}

#[test]
fn clip_align_panel_describes_its_fields_and_preview() {
    let mut app = App::new();
    let transport = app.project.transport;
    {
        let track = app.project.active_track_mut().unwrap();
        track.clear_content();
        track.commit_take(transport, RecordingTake::new(0).release(960), None);
    }
    app.apply_action(AppAction::OpenSelectedRecordingClipAlign);
    let session = app.clip_align_session.expect("session");
    let (label, value) = app.clip_align_field_label_value(ClipAlignField::TargetLength, &session);
    assert_eq!((label, value.as_str()), ("Length", "1 bars"));
    let (label, value) = app.clip_align_field_label_value(ClipAlignField::SourceEnd, &session);
    assert_eq!((label, value.as_str()), ("End", "Clip End"));
    let (title, detail) = app.clip_align_footer_content().expect("footer");
    assert_eq!(title, "Clip Align");
    assert_eq!(detail, "960 -> 3840 ticks");

    app.apply_action(AppAction::SelectNextClipAlignField);
    app.apply_action(AppAction::SelectNextClipAlignField);
    app.apply_action(AppAction::SelectNextClipAlignField);
    app.apply_action(AppAction::SelectNextClipAlignField);
    assert_eq!(app.clip_align_session.unwrap().selected_field, ClipAlignField::ApplyMode);
    app.apply_action(AppAction::AdjustClipAlignFieldForward);
    let (_, detail) = app.clip_align_footer_content().expect("footer");
    assert_eq!(detail, "960 -> 3840 ticks @ 480 BPM");

    app.apply_action(AppAction::CloseRecordingClipAlign);
    assert!(app.clip_align_footer_content().is_none());
}

#[test]
fn clip_align_apply_with_tempo_commits_the_matched_tempo() {
    let mut app = App::new();
    let transport = app.project.transport;
    {
        let track = app.project.active_track_mut().unwrap();
        track.clear_content();
        track.commit_take(transport, RecordingTake::new(0).release(1_920), None);
    }
    app.apply_action(AppAction::OpenSelectedRecordingClipAlign);
    let session = app.clip_align_session.expect("session");
    assert_eq!(session.settings.target_length, ClipAlignTargetLength::Bar1);
    app.apply_action(AppAction::SelectPreviousClipAlignField);
    app.apply_action(AppAction::SelectPreviousClipAlignField);
    assert_eq!(app.clip_align_session.unwrap().selected_field, ClipAlignField::ApplyMode);
    app.apply_action(AppAction::AdjustClipAlignFieldForward);
    app.apply_action(AppAction::ApplyRecordingClipAlign);
    assert_eq!(app.project.transport.tempo_bpm, 240);
    let track = app.project.active_track().unwrap();
    assert_eq!(track.loop_region.length_ticks, 3_840);
    assert!(track.state.loop_enabled);
    assert_eq!(track.recording_clips[0].region.length_ticks, 3_840);
}

#[test]
fn clip_align_pointer_outside_the_panel_is_swallowed() {
    let mut app = App::new();
    let content = Rect::new(40, 40, 1200, 620);
    assert!(app.handle_clip_align_pointer_down(content, 10, 10).is_none());
    let transport = app.project.transport;
    {
        let track = app.project.active_track_mut().unwrap();
        track.clear_content();
        track.commit_take(transport, RecordingTake::new(0).release(960), None);
    }
    app.apply_action(AppAction::OpenSelectedRecordingClipAlign);
    assert!(app.handle_clip_align_pointer_down(content, 1000, 600).is_some());
    assert!(app.clip_align_session.is_some());
    let panel = app.clip_align_panel_rect(content);
    let (_, cancel) = app.clip_align_button_rects(panel);
    app.handle_clip_align_pointer_down(content, cancel.x + 2, cancel.y + 2);
    assert!(app.clip_align_session.is_none());
}

#[test]
fn column_layout_keeps_fx_bands_clear_of_the_bodies() {
    let app = App::new();
    let full = Rect::new(40, 200, 140, 400);
    let detail = Rect::new(182, 200, 140, 400);
    let status = Rect::new(40, 200, 282, 14);
    let layout = app.timeline_track_layout(1, full, detail, status, (48, 48));
    let body = union_rect(layout.body_full_bounds, layout.body_detail_bounds);
    // the input band sits four pixels under the status strip, the bodies right after it
    assert_eq!(layout.input_fx_rect, Rect::new(44, 218, 274, 48));
    assert_eq!(layout.body_full_bounds, Rect::new(40, 266, 140, 282));
    // the output band starts four pixels below the bodies
    assert_eq!(layout.output_fx_rect.y, body.y + body.height() as i32 + 4);
    for rect in [layout.full_label_rect, layout.detail_label_rect, layout.full_content_rect, layout.detail_content_rect] {
        assert!(!rects_overlap(layout.input_fx_rect, rect));
        assert!(!rects_overlap(layout.output_fx_rect, rect));
    }
    let thru = app.track_passthrough_button_rect(layout.full_label_rect);
    let chip = app.recording_view_chip_rect(layout.full_label_rect);
    assert!(!rects_overlap(layout.input_fx_rect, thru));
    assert!(!rects_overlap(layout.input_fx_rect, chip));
    assert!(!rects_overlap(thru, layout.full_content_rect));
    assert_eq!(layout.track_index, 1);
}
