use trekr::app::{App, AppControl, TimelineContext};
use trekr::clip_align::ClipAlignField;
use trekr::keyboard::{KeyPress, PanelKey};
use trekr::timeline::RecordingTake;

fn press(key: PanelKey, shift: bool) -> Option<KeyPress> {
    Some(KeyPress { key, shift, repeat: false })
}

fn one_clip_app() -> App {
    let mut app = App::new();
    let transport = app.project.transport;
    {
        let track = app.project.active_track_mut().unwrap();
        track.clear_content();
        track.commit_take(transport, RecordingTake::new(0).release(960), None);
    }
    app.page_state.selected_timeline_context = TimelineContext::TrackTimeline;
    app
}

#[test]
fn shift_return_opens_clip_align_on_track_timeline() {
    let mut app = one_clip_app();
    assert_eq!(app.handle_clip_align_keyboard_event(press(PanelKey::Return, false)), None);
    assert!(app.clip_align_session.is_none());

    let control = app.handle_clip_align_keyboard_event(press(PanelKey::Return, true));
    assert_eq!(control, Some(AppControl::Continue));
    assert!(app.clip_align_session.is_some());
}

#[test]
fn shift_return_outside_track_timeline_does_nothing() {
    let mut app = one_clip_app();
    app.page_state.selected_timeline_context = TimelineContext::OutputFx;
    assert_eq!(app.handle_clip_align_keyboard_event(press(PanelKey::Return, true)), None);
    assert!(app.clip_align_session.is_none());
}

#[test]
fn shift_return_without_clip_does_nothing() {
    let mut app = App::new();
    app.project.active_track_mut().unwrap().clear_content();
    app.page_state.selected_timeline_context = TimelineContext::TrackTimeline;
    assert_eq!(app.handle_clip_align_keyboard_event(press(PanelKey::Return, true)), None);
    assert!(app.clip_align_session.is_none());
}

#[test]
fn escape_closes_open_clip_align_and_repeats_are_ignored() {
    let mut app = one_clip_app();
    app.handle_clip_align_keyboard_event(press(PanelKey::Return, true));
    assert!(app.clip_align_session.is_some());

    let repeated = Some(KeyPress { key: PanelKey::Escape, shift: false, repeat: true });
    assert_eq!(app.handle_clip_align_keyboard_event(repeated), None);
    assert!(app.clip_align_session.is_some());

    assert_eq!(app.handle_clip_align_keyboard_event(None), None);
    assert!(app.clip_align_session.is_some());

    assert_eq!(
        app.handle_clip_align_keyboard_event(press(PanelKey::Escape, false)),
        Some(AppControl::Continue)
    );
    assert!(app.clip_align_session.is_none());
}

#[test]
fn shift_arrows_move_between_clip_align_fields() {
    let mut app = one_clip_app();
    app.handle_clip_align_keyboard_event(press(PanelKey::Return, true));
    let first = app.clip_align_session.unwrap().selected_field;

    assert_eq!(app.handle_clip_align_keyboard_event(press(PanelKey::Right, false)), None);
    assert_eq!(app.clip_align_session.unwrap().selected_field, first);

    app.handle_clip_align_keyboard_event(press(PanelKey::Right, true));
    let second = app.clip_align_session.unwrap().selected_field;
    assert_ne!(second, first);

    app.handle_clip_align_keyboard_event(press(PanelKey::Left, true));
    assert_eq!(app.clip_align_session.unwrap().selected_field, first);
    assert_eq!(first, ClipAlignField::SourceStart);
    assert_eq!(second, ClipAlignField::SourceEnd);
}

#[test]
fn return_applies_open_clip_align() {
    let mut app = one_clip_app();
    app.handle_clip_align_keyboard_event(press(PanelKey::Return, true));
    app.handle_clip_align_keyboard_event(press(PanelKey::E, false));
    assert_eq!(
        app.handle_clip_align_keyboard_event(press(PanelKey::Return, false)),
        Some(AppControl::Continue)
    );
    assert!(app.clip_align_session.is_none());
    assert_eq!(app.project.active_track().unwrap().loop_region.length_ticks, 3_840);
}

#[test]
fn clip_align_pointer_selects_and_steps_fields_and_applies() {
    let mut app = one_clip_app();
    let content = trekr::geometry::Rect::new(40, 40, 1200, 620);
    app.handle_clip_align_keyboard_event(press(PanelKey::Return, true));
    let panel = app.clip_align_panel_rect(content);
    let rows = app.clip_align_field_rects(panel);

    let (field, row) = rows[2];
    let before = app.clip_align_session.unwrap().settings;
    let right = row.x + row.width() as i32 - 2;
    assert_eq!(app.handle_clip_align_pointer_down(content, right, row.y + 2), Some(AppControl::Continue));
    let session = app.clip_align_session.unwrap();
    assert_eq!(session.selected_field, field);
    assert_eq!(field, ClipAlignField::TargetLength);
    assert_ne!(session.settings, before);

    app.handle_clip_align_pointer_down(content, row.x + 2, row.y + 2);
    assert_eq!(app.clip_align_session.unwrap().settings, before);

    let (apply, _) = app.clip_align_button_rects(panel);
    let target = app.clip_align_session.unwrap().preview.target_length_ticks;
    app.handle_clip_align_pointer_down(content, apply.x + 2, apply.y + 2);
    assert!(app.clip_align_session.is_none());
    assert_eq!(app.project.active_track().unwrap().loop_region.length_ticks, target);
}

#[test]
fn stepping_a_field_and_back_restores_the_settings() {
    let mut app = one_clip_app();
    app.handle_clip_align_keyboard_event(press(PanelKey::Return, true));
    app.handle_clip_align_keyboard_event(press(PanelKey::Right, true));
    let before = app.clip_align_session.unwrap();
    assert_eq!(before.selected_field, ClipAlignField::SourceEnd);
    app.adjust_clip_align_field(2);
    assert_ne!(app.clip_align_session.unwrap().settings, before.settings);
    app.adjust_clip_align_field(-2);
    let after = app.clip_align_session.unwrap();
    assert_eq!(after.settings, before.settings);
    assert_eq!(after.selected_field, before.selected_field);
}
