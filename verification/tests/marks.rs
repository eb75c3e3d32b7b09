use trekr::app::App;
use trekr::geometry::{Color, Rect};
use trekr::marks::MarkLabel;
use trekr::project::RecordingView;
use trekr::timeline::RecordingTake;

fn labels(app: &App, track_index: usize, controls: Option<(Rect, Rect, Rect)>) -> Vec<&'static str> {
    let label = Rect::new(100, 120, 60, 24);
    app.recording_view_control_marks(label, &app.project.tracks[track_index], controls)
        .iter()
        .map(|m| m.label.text())
        .collect()
}

#[test]
fn overlay_view_shows_only_the_ovr_chip() {
    let app = App::new();
    assert_eq!(labels(&app, 0, None), vec!["OVR"]);
}

#[test]
fn stacked_view_shows_scroll_buttons_dimmed_at_the_ends() {
    let mut app = App::new();
    let transport = app.project.transport;
    {
        let track = &mut app.project.tracks[0];
        track.clear_content();
        track.recording_view = RecordingView::Stacked;
        track.commit_take(transport, RecordingTake::new(0).release(240), None);
        track.commit_take(transport, RecordingTake::new(480).release(720), None);
    }
    let label = Rect::new(100, 120, 60, 24);
    let controls = app.recording_clip_control_rects(label);
    let marks = app.recording_view_control_marks(label, &app.project.tracks[0], Some(controls));
    let texts: Vec<&str> = marks.iter().map(|m| m.label.text()).collect();
    assert_eq!(texts, vec!["<", ">", "STK", "A", "M", "X"]);
    // the last clip is selected: back is lit, forward is dimmed
    assert_eq!(marks[0].fill, Color::rgb(74, 82, 98));
    assert_eq!(marks[1].fill, Color::rgb(48, 54, 68));
    assert_eq!(marks[1].text_color, Some(Color::rgb(144, 150, 160)));
    assert_eq!(marks[3].rect, controls.0);

    app.project.tracks[0].recording_clips[1].muted = true;
    let marks = app.recording_view_control_marks(label, &app.project.tracks[0], Some(controls));
    assert_eq!(marks[4].label, MarkLabel::MuteOn);
    assert_eq!(marks[4].label.text(), "ON");
    assert_eq!(labels(&app, 0, None), vec!["<", ">", "STK"]);
}
