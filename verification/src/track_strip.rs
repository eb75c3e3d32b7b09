//! The label strip on top of each timeline sub-column and the small controls drawn in it.
use vstd::prelude::*;
use crate::actions::AppAction;
use crate::app::{App, TimelineFlow};
use crate::geometry::{Rect, rect_contains};
use crate::lanes::STORED_LOOP_SLOT_COUNT;
use crate::project::{RecordingView, Track, clip_position};

verus! {

/// Height of the label strip when time runs down the columns.
pub const LABEL_STRIP_HEIGHT: u32 = 24;

/// Width of the label strip when time runs across rows.
pub const LABEL_STRIP_WIDTH: u32 = 56;

pub open spec fn sat_sub(a: int, b: int) -> int {
    if a >= b { a - b } else { 0 }
}

/// The label strip of a sub-column lane.
pub fn timeline_subcolumn_label_rect(lane: Rect, flow: TimelineFlow) -> (r: Rect)
    requires
        lane.wf(),
    ensures
        r == (match flow {
            TimelineFlow::DownwardColumns => Rect::made(lane.x as int, lane.y as int, lane.w as int, 24),
            TimelineFlow::AcrossRows => Rect::made(lane.x as int, lane.y as int, 56, sat_sub(lane.h as int, 14)),
        }),
{
    match flow {
        TimelineFlow::DownwardColumns => Rect::new(lane.x, lane.y, lane.width(), LABEL_STRIP_HEIGHT),
        TimelineFlow::AcrossRows => Rect::new(lane.x, lane.y, LABEL_STRIP_WIDTH, if lane.height() >= 14 { lane.height() - 14 } else { 0 }),
    }
}

/// The content area of a sub-column lane, next to its label strip.
pub fn timeline_subcolumn_content_rect(lane: Rect, flow: TimelineFlow) -> (r: Rect)
    requires
        lane.wf(),
    ensures
        r == (match flow {
            TimelineFlow::DownwardColumns => Rect::made(lane.x as int, lane.y + 24, lane.w as int, sat_sub(lane.h as int, 24)),
            TimelineFlow::AcrossRows => Rect::made(lane.x + 56, lane.y as int, sat_sub(lane.w as int, 56), lane.h as int),
        }),
{
    match flow {
        TimelineFlow::DownwardColumns => Rect::new(
            lane.x,
            lane.y + 24,
            lane.width(),
            if lane.height() >= 24 { lane.height() - 24 } else { 0 },
        ),
        TimelineFlow::AcrossRows => Rect::new(
            lane.x + 56,
            lane.y,
            if lane.width() >= 56 { lane.width() - 56 } else { 0 },
            lane.height(),
        ),
    }
}

/// Number of stored-loop slots that fit in a label strip next to the track name.
pub open spec fn stored_loop_slots_fitting(label_w: int) -> int {
    let available = label_w - 8 - 24;
    if available < 10 {
        0
    } else if (available + 2) / 12 > STORED_LOOP_SLOT_COUNT {
        STORED_LOOP_SLOT_COUNT as int
    } else {
        (available + 2) / 12
    }
}

impl App {
    /// The chip that switches between overlaid and stacked clips, at the bottom right of the
    /// label strip.
    pub fn recording_view_chip_rect(&self, label_rect: Rect) -> (r: Rect)
        requires
            label_rect.wf(),
        ensures
            r == Rect::made(label_rect.x + label_rect.w - 4 - 26, label_rect.y + label_rect.h - 13, 26, 11),
    {
        let top_y = label_rect.y + label_rect.height() as i32 - 13;
        let right = label_rect.x + label_rect.width() as i32 - 4;
        Rect::new(right - 26, top_y, 26, 11)
    }

    /// The MIDI thru button at the top left of the label strip.
    pub fn track_passthrough_button_rect(&self, label_rect: Rect) -> (r: Rect)
        requires
            label_rect.wf(),
        ensures
            r == Rect::made(label_rect.x + 4, label_rect.y + 1,
                if sat_sub(label_rect.w as int, 8) < 30 { sat_sub(label_rect.w as int, 8) } else { 30 }, 11),
    {
        let inner = if label_rect.width() >= 8 { label_rect.width() - 8 } else { 0 };
        Rect::new(label_rect.x + 4, label_rect.y + 1, if inner < 30 { inner } else { 30 }, 11)
    }

    /// How many stored-loop slots the label strip shows.
    pub fn stored_loop_visible_slot_count(&self, label_rect: Rect) -> (r: usize)
        requires
            label_rect.wf(),
        ensures
            r == stored_loop_slots_fitting(label_rect.w as int),
            r <= STORED_LOOP_SLOT_COUNT,
    {
        let available: i32 = label_rect.width() as i32 - 8 - 24;
        if available < 10 {
            return 0;
        }
        let fitting = ((available + 2) / 12) as usize;
        if fitting > STORED_LOOP_SLOT_COUNT { STORED_LOOP_SLOT_COUNT } else { fitting }
    }

    /// The stored-loop slots shown at the top left of the label strip, left to right.
    pub fn stored_loop_slot_rects(&self, label_rect: Rect) -> (r: Vec<(usize, Rect)>)
        requires
            label_rect.wf(),
        ensures
            r@.len() == stored_loop_slots_fitting(label_rect.w as int),
            forall|i: int| 0 <= i < r@.len() ==> (#[trigger] r@[i]).0 == i
                && r@[i].1 == Rect::made(label_rect.x + 4 + 12 * i, label_rect.y as int, 10, 11),
    {
        let count = self.stored_loop_visible_slot_count(label_rect);
        let mut rects: Vec<(usize, Rect)> = Vec::new();
        let mut slot: usize = 0;
        while slot < count
            invariant
                slot <= count,
                count <= STORED_LOOP_SLOT_COUNT,
                label_rect.wf(),
                rects@.len() == slot,
                forall|i: int| 0 <= i < slot ==> (#[trigger] rects@[i]).0 == i
                    && rects@[i].1 == Rect::made(label_rect.x + 4 + 12 * i, label_rect.y as int, 10, 11),
            decreases count - slot,
        {
            rects.push((slot, Rect::new(label_rect.x + 4 + (slot as i32) * 12, label_rect.y, 10, 11)));
            slot = slot + 1;
        }
        rects
    }

    /// The previous and next clip buttons, left of the view chip.
    pub fn recording_view_scroll_control_rects(&self, label_rect: Rect) -> (r: (Rect, Rect))
        requires
            label_rect.wf(),
        ensures
            ({
                let view = Rect::made(label_rect.x + label_rect.w - 4 - 26, label_rect.y + label_rect.h - 13, 26, 11);
                let right = Rect::made(view.x - 16, label_rect.y + label_rect.h - 13, 12, 11);
                &&& r.1 == right
                &&& r.0 == Rect::made(right.x - 14, label_rect.y + label_rect.h - 13, 12, 11)
            }),
    {
        let top_y = label_rect.y + label_rect.height() as i32 - 13;
        let view_rect = self.recording_view_chip_rect(label_rect);
        let right_rect = Rect::new(view_rect.x - 16, top_y, 12, 11);
        let left_rect = Rect::new(right_rect.x - 14, top_y, 12, 11);
        (left_rect, right_rect)
    }

    /// The align, mute and delete buttons of the selected clip, at the top right of the
    /// label strip.
    pub fn recording_clip_control_rects(&self, label_rect: Rect) -> (r: (Rect, Rect, Rect))
        requires
            label_rect.wf(),
        ensures
            r.0 == Rect::made(label_rect.x + label_rect.w - 4 - 44, label_rect.y + 1, 12, 11),
            r.1 == Rect::made(label_rect.x + label_rect.w - 4 - 28, label_rect.y + 1, 12, 11),
            r.2 == Rect::made(label_rect.x + label_rect.w - 4 - 12, label_rect.y + 1, 12, 11),
    {
        let top_y = label_rect.y + 1;
        let right = label_rect.x + label_rect.width() as i32 - 4;
        (
            Rect::new(right - 44, top_y, 12, 11),
            Rect::new(right - 28, top_y, 12, 11),
            Rect::new(right - 12, top_y, 12, 11),
        )
    }

    /// The clip paging action under a pointer on the label strip of a stacked track: only
    /// a button that has a clip to move to answers.
    pub fn recording_clip_scroll_control_hit(&self, label_rect: Rect, track: &Track, x: i32, y: i32) -> (r: Option<AppAction>)
        requires
            label_rect.wf(),
            track.wf(),
        ensures
            ({
                let view = Rect::made(label_rect.x + label_rect.w - 4 - 26, label_rect.y + label_rect.h - 13, 26, 11);
                let right = Rect::made(view.x - 16, label_rect.y + label_rect.h - 13, 12, 11);
                let left = Rect::made(right.x - 14, label_rect.y + label_rect.h - 13, 12, 11);
                let position = match track.selected_recording_clip_id {
                    Some(id) => clip_position(track.recording_clips@, id),
                    None => None,
                };
                let can_previous = position matches Some(p) && p > 0;
                let can_next = position matches Some(p) && p + 1 < track.recording_clips@.len();
                r == (if track.recording_view != RecordingView::Stacked {
                    None
                } else if left.contains(x as int, y as int) && can_previous {
                    Some(AppAction::SelectPreviousRecordingClip)
                } else if right.contains(x as int, y as int) && can_next {
                    Some(AppAction::SelectNextRecordingClip)
                } else {
                    None
                })
            }),
    {
        if track.recording_view != RecordingView::Stacked {
            return None;
        }
        let (left_rect, right_rect) = self.recording_view_scroll_control_rects(label_rect);
        if rect_contains(left_rect, x, y) && self.can_select_previous_recording_clip(track) {
            return Some(AppAction::SelectPreviousRecordingClip);
        }
        if rect_contains(right_rect, x, y) && self.can_select_next_recording_clip(track) {
            return Some(AppAction::SelectNextRecordingClip);
        }
        None
    }
}

} // verus!
