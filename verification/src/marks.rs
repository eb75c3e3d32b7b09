//! What the recording-view controls of a label strip show: each control as a filled,
//! outlined rectangle with a short label, in the colours of the standard theme.

use vstd::prelude::*;
use crate::app::App;
use crate::geometry::{Color, Rect};
use crate::lanes::{lemma_found_position, lemma_no_position};
use crate::pointer::view_chip;
use crate::project::{RecordingClip, RecordingView, Track, clip_position};
use crate::track_strip::sat_sub;

verus! {

/// The labels the recording-view controls show.
#[derive(Debug, Clone, Copy, PartialEq, Eq, Structural)]
pub enum MarkLabel {
    Previous,
    Next,
    Overlay,
    Stacked,
    Align,
    Mute,
    MuteOn,
    Delete,
}

impl MarkLabel {
    pub open spec fn spec_text(self) -> Seq<char> {
        match self {
            MarkLabel::Previous => "<"@,
            MarkLabel::Next => ">"@,
            MarkLabel::Overlay => "OVR"@,
            MarkLabel::Stacked => "STK"@,
            MarkLabel::Align => "A"@,
            MarkLabel::Mute => "M"@,
            MarkLabel::MuteOn => "ON"@,
            MarkLabel::Delete => "X"@,
        }
    }

    /// The text of the label.
    pub fn text(&self) -> (r: &'static str)
        ensures
            r@ == self.spec_text(),
    {
        match self {
            MarkLabel::Previous => "<",
            MarkLabel::Next => ">",
            MarkLabel::Overlay => "OVR",
            MarkLabel::Stacked => "STK",
            MarkLabel::Align => "A",
            MarkLabel::Mute => "M",
            MarkLabel::MuteOn => "ON",
            MarkLabel::Delete => "X",
        }
    }
}

/// A control to draw: `rect` filled with `fill` and outlined with `outline`, and `label`
/// fitted into `text_rect` in `text_color`; with no text colour, the label takes the colour
/// that contrasts with the fill.
#[derive(Debug, Clone, Copy, PartialEq, Eq, Structural)]
pub struct DrawMark {
    pub rect: Rect,
    pub fill: Color,
    pub outline: Color,
    pub label: MarkLabel,
    pub text_rect: Rect,
    pub text_color: Option<Color>,
}

/// An opaque colour.
pub open spec fn rgb(r: u8, g: u8, b: u8) -> Color {
    Color { r, g, b, a: 255 }
}

/// A clip scroll button: lit when it can move the selection, dimmed when it cannot.
pub open spec fn arrow_mark(rect: Rect, label: MarkLabel, enabled: bool) -> DrawMark {
    DrawMark {
        rect,
        fill: if enabled { rgb(74, 82, 98) } else { rgb(48, 54, 68) },
        outline: if enabled { rgb(202, 212, 224) } else { rgb(112, 118, 130) },
        label,
        text_rect: Rect::made(rect.x + 6, rect.y + 1, sat_sub(rect.w as int, 12), 8),
        text_color: Some(if enabled { rgb(244, 244, 236) } else { rgb(144, 150, 160) }),
    }
}

/// The selected clip of `track`, if its identifier names one of the track's clips.
pub open spec fn selected_clip(track: Track) -> Option<RecordingClip> {
    match track.selected_recording_clip_id {
        Some(id) => match clip_position(track.recording_clips@, id) {
            Some(p) => Some(track.recording_clips@[p]),
            None => None,
        },
        None => None,
    }
}

/// The marks of the recording-view controls of `track` in the label strip `label`: in the
/// stacked view the `<` and `>` clip scroll buttons, lit exactly when they can move the
/// selection; the `OVR`/`STK` view chip; and, when a clip is selected and the clip controls
/// `controls` are given, its align (`A`), mute (`M`, or `ON` while muted) and delete (`X`)
/// buttons.
pub open spec fn spec_recording_view_control_marks(
    label: Rect,
    track: Track,
    controls: Option<(Rect, Rect, Rect)>,
) -> Seq<DrawMark> {
    let view = view_chip(label);
    let right = Rect::made(view.x - 16, label.y + label.h - 13, 12, 11);
    let left = Rect::made(right.x - 14, label.y + label.h - 13, 12, 11);
    let position = match track.selected_recording_clip_id {
        Some(id) => clip_position(track.recording_clips@, id),
        None => None,
    };
    let can_previous = position matches Some(p) && p > 0;
    let can_next = position matches Some(p) && p + 1 < track.recording_clips@.len();
    let scroll = if track.recording_view == RecordingView::Stacked {
        seq![arrow_mark(left, MarkLabel::Previous, can_previous), arrow_mark(right, MarkLabel::Next, can_next)]
    } else {
        Seq::empty()
    };
    let overlay = track.recording_view == RecordingView::Overlay;
    let chip = DrawMark {
        rect: view,
        fill: if overlay { rgb(50, 84, 126) } else { rgb(124, 98, 48) },
        outline: rgb(232, 228, 208),
        label: if overlay { MarkLabel::Overlay } else { MarkLabel::Stacked },
        text_rect: view,
        text_color: None,
    };
    let clip = match (selected_clip(track), controls) {
        (Some(c), Some((align, mute, delete))) => seq![
            DrawMark { rect: align, fill: rgb(88, 110, 74), outline: rgb(228, 236, 214), label: MarkLabel::Align, text_rect: align, text_color: None },
            DrawMark {
                rect: mute,
                fill: if c.muted { rgb(120, 118, 112) } else { rgb(84, 122, 92) },
                outline: rgb(228, 232, 216),
                label: if c.muted { MarkLabel::MuteOn } else { MarkLabel::Mute },
                text_rect: mute,
                text_color: None,
            },
            DrawMark { rect: delete, fill: rgb(132, 74, 70), outline: rgb(240, 220, 210), label: MarkLabel::Delete, text_rect: delete, text_color: None },
        ],
        _ => Seq::empty(),
    };
    scroll.push(chip) + clip
}

/// Builds the mark of a clip scroll button.
fn arrow_mark_at(rect: Rect, label: MarkLabel, enabled: bool) -> (r: DrawMark)
    requires
        rect.wf(),
    ensures
        r == arrow_mark(rect, label, enabled),
{
    DrawMark {
        rect,
        fill: if enabled { Color::rgb(74, 82, 98) } else { Color::rgb(48, 54, 68) },
        outline: if enabled { Color::rgb(202, 212, 224) } else { Color::rgb(112, 118, 130) },
        label,
        text_rect: Rect::new(rect.x + 6, rect.y + 1, if rect.w >= 12 { rect.w - 12 } else { 0 }, 8),
        text_color: Some(if enabled { Color::rgb(244, 244, 236) } else { Color::rgb(144, 150, 160) }),
    }
}

impl App {
    /// The marks of the recording-view controls of `track` in the label strip `label_rect`.
    pub fn recording_view_control_marks(
        &self,
        label_rect: Rect,
        track: &Track,
        clip_controls: Option<(Rect, Rect, Rect)>,
    ) -> (r: Vec<DrawMark>)
        requires
            label_rect.wf(),
            track.wf(),
        ensures
            r@ == spec_recording_view_control_marks(label_rect, *track, clip_controls),
    {
        let mut marks: Vec<DrawMark> = Vec::new();
        if track.recording_view == RecordingView::Stacked {
            let can_left = self.can_select_previous_recording_clip(track);
            let can_right = self.can_select_next_recording_clip(track);
            let (left_rect, right_rect) = self.recording_view_scroll_control_rects(label_rect);
            proof {
                crate::geometry::lemma_made_wf(label_rect.x + label_rect.w - 4 - 26, label_rect.y + label_rect.h - 13, 26, 11);
                let view = Rect::made(label_rect.x + label_rect.w - 4 - 26, label_rect.y + label_rect.h - 13, 26, 11);
                crate::geometry::lemma_made_wf(view.x - 16, label_rect.y + label_rect.h - 13, 12, 11);
                crate::geometry::lemma_made_wf(right_rect.x - 14, label_rect.y + label_rect.h - 13, 12, 11);
            }
            marks.push(arrow_mark_at(left_rect, MarkLabel::Previous, can_left));
            marks.push(arrow_mark_at(right_rect, MarkLabel::Next, can_right));
        }
        let view_rect = self.recording_view_chip_rect(label_rect);
        let overlay = track.recording_view == RecordingView::Overlay;
        marks.push(DrawMark {
            rect: view_rect,
            fill: if overlay { Color::rgb(50, 84, 126) } else { Color::rgb(124, 98, 48) },
            outline: Color::rgb(232, 228, 208),
            label: if overlay { MarkLabel::Overlay } else { MarkLabel::Stacked },
            text_rect: view_rect,
            text_color: None,
        });
        let selected = match track.selected_recording_clip_index() {
            Some(i) => {
                proof {
                    lemma_found_position(track.recording_clips@, track.selected_recording_clip_id->0, i as int);
                }
                Some(track.recording_clips[i])
            },
            None => {
                proof {
                    lemma_no_position(track.recording_clips@, track.selected_recording_clip_id);
                }
                None
            },
        };
        assert(selected == selected_clip(*track));
        if let (Some(clip), Some((align_rect, mute_rect, delete_rect))) = (selected, clip_controls) {
            marks.push(DrawMark {
                rect: align_rect,
                fill: Color::rgb(88, 110, 74),
                outline: Color::rgb(228, 236, 214),
                label: MarkLabel::Align,
                text_rect: align_rect,
                text_color: None,
            });
            marks.push(DrawMark {
                rect: mute_rect,
                fill: if clip.muted { Color::rgb(120, 118, 112) } else { Color::rgb(84, 122, 92) },
                outline: Color::rgb(228, 232, 216),
                label: if clip.muted { MarkLabel::MuteOn } else { MarkLabel::Mute },
                text_rect: mute_rect,
                text_color: None,
            });
            marks.push(DrawMark {
                rect: delete_rect,
                fill: Color::rgb(132, 74, 70),
                outline: Color::rgb(240, 220, 210),
                label: MarkLabel::Delete,
                text_rect: delete_rect,
                text_color: None,
            });
        }
        assert(marks@ =~= spec_recording_view_control_marks(label_rect, *track, clip_controls));
        marks
    }
}

} // verus!
