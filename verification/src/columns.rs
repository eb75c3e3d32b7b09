//! The track columns of the timeline: which tracks are shown, and the parts of one column.
use vstd::prelude::*;
use crate::app::{App, TimelineContext, TimelineFlow};
use crate::geometry::{Rect, MAX_INT_VALUE, lemma_made_wf};
use crate::track_strip::{sat_sub, timeline_subcolumn_content_rect, timeline_subcolumn_label_rect};

verus! {

/// The parts of one track column: the full-song and loop-detail sub-columns, the status strip,
/// the sub-column bodies with their label strips and content areas, and the FX racks above
/// and below.
#[derive(Debug, Clone, Copy)]
pub struct TimelineTrackLayout {
    pub track_index: usize,
    pub full_bounds: Rect,
    pub detail_bounds: Rect,
    pub pair_bounds: Rect,
    pub status_rect: Rect,
    pub body_full_bounds: Rect,
    pub body_detail_bounds: Rect,
    pub full_label_rect: Rect,
    pub detail_label_rect: Rect,
    pub full_content_rect: Rect,
    pub detail_content_rect: Rect,
    pub input_fx_rect: Rect,
    pub output_fx_rect: Rect,
}

pub open spec fn min_int(a: int, b: int) -> int {
    if a <= b { a } else { b }
}

pub open spec fn max_int(a: int, b: int) -> int {
    if a >= b { a } else { b }
}

/// The smallest rectangle holding both.
pub open spec fn spec_union(a: Rect, b: Rect) -> Rect {
    let x = min_int(a.x as int, b.x as int);
    let y = min_int(a.y as int, b.y as int);
    Rect::made(x, y, max_int(a.spec_right(), b.spec_right()) - x, max_int(a.spec_bottom(), b.spec_bottom()) - y)
}

/// The smallest rectangle holding both rectangles.
pub fn union_rect(a: Rect, b: Rect) -> (r: Rect)
    requires
        a.wf(),
        b.wf(),
    ensures
        r == spec_union(a, b),
        a.x >= 0 && a.y >= 0 && b.x >= 0 && b.y >= 0
            && a.spec_right() <= MAX_INT_VALUE && b.spec_right() <= MAX_INT_VALUE
            && a.spec_bottom() <= MAX_INT_VALUE && b.spec_bottom() <= MAX_INT_VALUE ==> a.inside(r) && b.inside(r),
{
    let x = if a.x < b.x { a.x } else { b.x };
    let y = if a.y < b.y { a.y } else { b.y };
    let right = if a.right() > b.right() { a.right() } else { b.right() };
    let bottom = if a.bottom() > b.bottom() { a.bottom() } else { b.bottom() };
    Rect::new(x, y, (right as i64 - x as i64) as u32, (bottom as i64 - y as i64) as u32)
}

impl TimelineTrackLayout {
    /// The area a timeline context highlights: one of the FX racks, or both sub-column bodies.
    pub fn fx_rect(self, context: TimelineContext) -> (r: Rect)
        requires
            self.body_full_bounds.wf(),
            self.body_detail_bounds.wf(),
        ensures
            r == (match context {
                TimelineContext::InputFx => self.input_fx_rect,
                TimelineContext::OutputFx => self.output_fx_rect,
                TimelineContext::TrackTimeline => spec_union(self.body_full_bounds, self.body_detail_bounds),
            }),
    {
        match context {
            TimelineContext::InputFx => self.input_fx_rect,
            TimelineContext::OutputFx => self.output_fx_rect,
            TimelineContext::TrackTimeline => union_rect(self.body_full_bounds, self.body_detail_bounds),
        }
    }
}

impl App {
    /// The tracks the timeline shows, left to right: every track, or only the active one in
    /// the focused view.
    pub fn visible_track_indices(&self) -> (r: Vec<usize>)
        ensures
            self.project.tracks@.len() == 0 ==> r@.len() == 0,
            self.project.tracks@.len() > 0 && self.focused_track_view ==> r@ == seq![self.project.active_track_index],
            self.project.tracks@.len() > 0 && !self.focused_track_view ==>
                r@.len() == self.project.tracks@.len() && forall|i: int| 0 <= i < r@.len() ==> #[trigger] r@[i] == i,
    {
        let count = self.project.tracks.len();
        let mut r: Vec<usize> = Vec::new();
        if count == 0 {
            return r;
        }
        if self.focused_track_view {
            r.push(self.project.active_track_index);
            assert(r@ =~= seq![self.project.active_track_index]);
            return r;
        }
        let mut i: usize = 0;
        while i < count
            invariant
                i <= count,
                r@.len() == i,
                forall|k: int| 0 <= k < i ==> #[trigger] r@[k] == k,
            decreases count - i,
        {
            r.push(i);
            i = i + 1;
        }
        r
    }

    /// A one-pixel bar two pixels left of the area the selected timeline context covers;
    /// none when that area starts too far left to leave room for it.
    pub fn timeline_context_indicator_rect_for_layout(&self, layout: TimelineTrackLayout) -> (r: Option<Rect>)
        requires
            layout.body_full_bounds.wf(),
            layout.body_detail_bounds.wf(),
        ensures
            ({
                let area = match self.page_state.selected_timeline_context {
                    TimelineContext::InputFx => layout.input_fx_rect,
                    TimelineContext::OutputFx => layout.output_fx_rect,
                    TimelineContext::TrackTimeline => spec_union(layout.body_full_bounds, layout.body_detail_bounds),
                };
                &&& r is None <==> area.x - 2 < i32::MIN
                &&& r matches Some(bar) ==> bar == Rect::made(area.x - 2, area.y as int, 1, area.h as int)
            }),
    {
        let area = layout.fx_rect(self.page_state.selected_timeline_context);
        let indicator_x = match area.x.checked_sub(2) {
            Some(v) => v,
            None => return None,
        };
        Some(Rect::new(indicator_x, area.y, 1, area.height()))
    }
}

/// The band heights must be real heights, and the sums that place the bands must stay within
/// an `i32`.
pub open spec fn column_fits(full: Rect, detail: Rect, status: Rect, top_h: int, bottom_h: int) -> bool {
    let pair = spec_union(full, detail);
    let top = column_top_reserve(pair, status, top_h);
    let (bf, bd) = spec_body_bounds(full, detail, status, top_h, bottom_h);
    let body = spec_union(bf, bd);
    &&& full.wf() && detail.wf() && status.wf()
    &&& 0 <= top_h <= MAX_INT_VALUE && 0 <= bottom_h <= MAX_INT_VALUE
    &&& status.y + status.h + 4 <= i32::MAX
    &&& full.y + top <= i32::MAX && detail.y + top <= i32::MAX
    &&& body.y + body.h + 4 <= i32::MAX
}

/// How far the sub-column bodies start below the top of the column: past the status strip, a
/// four-pixel gap and the input rack band `top_h` high.
pub open spec fn column_top_reserve(pair: Rect, status: Rect, top_h: int) -> int {
    max_int(status.y + status.h + 4 + top_h - pair.y, 0)
}

/// The full and detail sub-column bodies: the sub-columns less the room above for the status
/// strip and the input band, and below for a four-pixel gap and the output band.
pub open spec fn spec_body_bounds(full: Rect, detail: Rect, status: Rect, top_h: int, bottom_h: int) -> (Rect, Rect) {
    let pair = spec_union(full, detail);
    let top = column_top_reserve(pair, status, top_h);
    let h = sat_sub(sat_sub(full.h as int, top), 4 + bottom_h);
    (Rect::made(full.x as int, full.y + top, full.w as int, h), Rect::made(detail.x as int, detail.y + top, detail.w as int, h))
}

/// The input band (four pixels below the status strip) and the output band (four pixels below
/// the bodies), each inset four pixels on both sides of the column.
pub open spec fn spec_band_rects(full: Rect, detail: Rect, status: Rect, top_h: int, bottom_h: int) -> (Rect, Rect) {
    let pair = spec_union(full, detail);
    let (bf, bd) = spec_body_bounds(full, detail, status, top_h, bottom_h);
    let body = spec_union(bf, bd);
    (
        Rect::made(pair.x + 4, status.y + status.h + 4, sat_sub(pair.w as int, 8), top_h),
        Rect::made(pair.x + 4, body.y + body.h + 4, sat_sub(pair.w as int, 8), bottom_h),
    )
}

/// The layout of track `index`'s column from its sub-columns, its status strip and the band
/// heights.
pub open spec fn spec_track_layout(flow: TimelineFlow, index: usize, full: Rect, detail: Rect, status: Rect, top_h: int, bottom_h: int) -> TimelineTrackLayout {
    let (bf, bd) = spec_body_bounds(full, detail, status, top_h, bottom_h);
    let (input, output) = spec_band_rects(full, detail, status, top_h, bottom_h);
    TimelineTrackLayout {
        track_index: index,
        full_bounds: full,
        detail_bounds: detail,
        pair_bounds: spec_union(full, detail),
        status_rect: status,
        body_full_bounds: bf,
        body_detail_bounds: bd,
        full_label_rect: subcolumn_label(bf, flow),
        detail_label_rect: subcolumn_label(bd, flow),
        full_content_rect: subcolumn_content(bf, flow),
        detail_content_rect: subcolumn_content(bd, flow),
        input_fx_rect: input,
        output_fx_rect: output,
    }
}

/// The label strip of a sub-column body.
pub open spec fn subcolumn_label(lane: Rect, flow: TimelineFlow) -> Rect {
    match flow {
        TimelineFlow::DownwardColumns => Rect::made(lane.x as int, lane.y as int, lane.w as int, 24),
        TimelineFlow::AcrossRows => Rect::made(lane.x as int, lane.y as int, 56, sat_sub(lane.h as int, 14)),
    }
}

/// The content area of a sub-column body.
pub open spec fn subcolumn_content(lane: Rect, flow: TimelineFlow) -> Rect {
    match flow {
        TimelineFlow::DownwardColumns => Rect::made(lane.x as int, lane.y + 24, lane.w as int, sat_sub(lane.h as int, 24)),
        TimelineFlow::AcrossRows => Rect::made(lane.x + 56, lane.y as int, sat_sub(lane.w as int, 56), lane.h as int),
    }
}

/// `status.y + status.h + 4` and the top reserve, computed without overflow.
fn top_reserve_at(pair: Rect, status: Rect, top_h: i32) -> (r: i64)
    requires
        pair.wf(),
        status.wf(),
        0 <= top_h,
    ensures
        r == column_top_reserve(pair, status, top_h as int),
{
    let raw: i64 = status.y as i64 + status.h as i64 + 4 + top_h as i64 - pair.y as i64;
    if raw > 0 { raw } else { 0 }
}

impl App {
    /// The bodies of the full and detail sub-columns of a track column, given its status strip
    /// and the heights of its input and output bands.
    pub fn track_column_body_bounds(&self, full_bounds: Rect, detail_bounds: Rect, status_rect: Rect, band_heights: (i32, i32)) -> (r: (Rect, Rect))
        requires
            column_fits(full_bounds, detail_bounds, status_rect, band_heights.0 as int, band_heights.1 as int),
        ensures
            r == spec_body_bounds(full_bounds, detail_bounds, status_rect, band_heights.0 as int, band_heights.1 as int),
    {
        let pair = union_rect(full_bounds, detail_bounds);
        let top = top_reserve_at(pair, status_rect, band_heights.0);
        let bottom: u64 = 4 + band_heights.1 as u64;
        let after_top: u64 = if full_bounds.h as u64 >= top as u64 { full_bounds.h as u64 - top as u64 } else { 0 };
        let h: u64 = if after_top >= bottom { after_top - bottom } else { 0 };
        (
            Rect::new(full_bounds.x, (full_bounds.y as i64 + top) as i32, full_bounds.w, h as u32),
            Rect::new(detail_bounds.x, (detail_bounds.y as i64 + top) as i32, detail_bounds.w, h as u32),
        )
    }

    /// The input and output FX bands of a track column.
    pub fn track_fx_band_rects(&self, full_bounds: Rect, detail_bounds: Rect, status_rect: Rect, band_heights: (i32, i32)) -> (r: (Rect, Rect))
        requires
            column_fits(full_bounds, detail_bounds, status_rect, band_heights.0 as int, band_heights.1 as int),
        ensures
            r == spec_band_rects(full_bounds, detail_bounds, status_rect, band_heights.0 as int, band_heights.1 as int),
    {
        let pair = union_rect(full_bounds, detail_bounds);
        let (body_full, body_detail) = self.track_column_body_bounds(full_bounds, detail_bounds, status_rect, band_heights);
        proof {
            let top = column_top_reserve(pair, status_rect, band_heights.0 as int);
            let h = sat_sub(sat_sub(full_bounds.h as int, top), 4 + band_heights.1);
            lemma_made_wf(full_bounds.x as int, full_bounds.y + top, full_bounds.w as int, h);
            lemma_made_wf(detail_bounds.x as int, detail_bounds.y + top, detail_bounds.w as int, h);
        }
        let body = union_rect(body_full, body_detail);
        let inner: u32 = if pair.w >= 8 { pair.w - 8 } else { 0 };
        (
            Rect::new(pair.x + 4, status_rect.y + status_rect.h as i32 + 4, inner, band_heights.0 as u32),
            Rect::new(pair.x + 4, body.y + body.h as i32 + 4, inner, band_heights.1 as u32),
        )
    }

    /// The layout of track `index`'s column.
    pub fn timeline_track_layout(&self, index: usize, full_bounds: Rect, detail_bounds: Rect, status_rect: Rect, band_heights: (i32, i32)) -> (r: TimelineTrackLayout)
        requires
            column_fits(full_bounds, detail_bounds, status_rect, band_heights.0 as int, band_heights.1 as int),
        ensures
            r == spec_track_layout(self.timeline_flow, index, full_bounds, detail_bounds, status_rect, band_heights.0 as int, band_heights.1 as int),
    {
        let pair = union_rect(full_bounds, detail_bounds);
        let (body_full, body_detail) = self.track_column_body_bounds(full_bounds, detail_bounds, status_rect, band_heights);
        proof {
            let top = column_top_reserve(pair, status_rect, band_heights.0 as int);
            let h = sat_sub(sat_sub(full_bounds.h as int, top), 4 + band_heights.1);
            lemma_made_wf(full_bounds.x as int, full_bounds.y + top, full_bounds.w as int, h);
            lemma_made_wf(detail_bounds.x as int, detail_bounds.y + top, detail_bounds.w as int, h);
        }
        let (input, output) = self.track_fx_band_rects(full_bounds, detail_bounds, status_rect, band_heights);
        TimelineTrackLayout {
            track_index: index,
            full_bounds,
            detail_bounds,
            pair_bounds: pair,
            status_rect,
            body_full_bounds: body_full,
            body_detail_bounds: body_detail,
            full_label_rect: timeline_subcolumn_label_rect(body_full, self.timeline_flow),
            detail_label_rect: timeline_subcolumn_label_rect(body_detail, self.timeline_flow),
            full_content_rect: timeline_subcolumn_content_rect(body_full, self.timeline_flow),
            detail_content_rect: timeline_subcolumn_content_rect(body_detail, self.timeline_flow),
            input_fx_rect: input,
            output_fx_rect: output,
        }
    }
}

} // verus!
