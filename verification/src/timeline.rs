//! Tick ranges of the timeline and the rule that turns a recording pass into a region.
//!
//! A pass is captured as two transport positions. Without a loop the region runs from the
//! first to the second. Inside a loop both positions are folded onto the loop by their phase;
//! a pass that wraps past the loop end is either clamped at the loop end or, when clip
//! extension is on, rebased to the loop start and extended.
use vstd::prelude::*;
use vstd::arithmetic::div_mod::*;

verus! {

/// A loop or view range on the timeline.
#[derive(Debug, Clone, Copy, PartialEq, Eq, Structural)]
pub struct LoopRegion {
    pub start_ticks: u64,
    pub length_ticks: u64,
}

impl LoopRegion {
    pub fn new(start_ticks: u64, length_ticks: u64) -> (r: LoopRegion)
        ensures
            r.start_ticks == start_ticks,
            r.length_ticks == length_ticks,
    {
        LoopRegion { start_ticks, length_ticks }
    }

    /// The end of the range fits a tick counter.
    pub open spec fn wf(self) -> bool {
        self.start_ticks + self.length_ticks <= u64::MAX
    }

    pub open spec fn spec_end(self) -> int {
        self.start_ticks + self.length_ticks
    }

    /// First tick after the range.
    pub fn end_ticks(&self) -> (r: u64)
        requires
            self.wf(),
        ensures
            r == self.spec_end(),
    {
        self.start_ticks + self.length_ticks
    }
}

/// Whether two ranges share at least one tick.
pub open spec fn ranges_intersect(a: LoopRegion, b: LoopRegion) -> bool {
    a.start_ticks < b.spec_end() && a.spec_end() > b.start_ticks
}

/// Whether two loop regions overlap.
pub fn loop_regions_intersect(a: LoopRegion, b: LoopRegion) -> (r: bool)
    requires
        a.wf(),
        b.wf(),
    ensures
        r == ranges_intersect(a, b),
{
    a.start_ticks < b.end_ticks() && a.end_ticks() > b.start_ticks
}

/// Overlap of ranges does not depend on their order.
pub proof fn lemma_ranges_intersect_symmetric(a: LoopRegion, b: LoopRegion)
    ensures
        ranges_intersect(a, b) == ranges_intersect(b, a),
{
}

/// A committed stretch of recorded material, optionally owned by a recording clip.
#[derive(Debug, Clone, Copy, PartialEq, Eq, Structural)]
pub struct Region {
    pub start_ticks: u64,
    pub length_ticks: u64,
    pub recording_clip_id: Option<u64>,
}

impl Region {
    pub fn new(start_ticks: u64, length_ticks: u64) -> (r: Region)
        ensures
            r == (Region { start_ticks, length_ticks, recording_clip_id: None }),
    {
        Region { start_ticks, length_ticks, recording_clip_id: None }
    }

    pub fn new_recorded(start_ticks: u64, length_ticks: u64, clip_id: u64) -> (r: Region)
        ensures
            r == (Region { start_ticks, length_ticks, recording_clip_id: Some(clip_id) }),
    {
        Region { start_ticks, length_ticks, recording_clip_id: Some(clip_id) }
    }
}

/// A recording pass: where it started and, once released, where it stopped.
#[derive(Debug, Clone, Copy, PartialEq, Eq, Structural)]
pub struct RecordingTake {
    pub start_ticks: u64,
    pub release_ticks: Option<u64>,
}

impl RecordingTake {
    pub fn new(start_ticks: u64) -> (r: RecordingTake)
        ensures
            r == (RecordingTake { start_ticks, release_ticks: None }),
    {
        RecordingTake { start_ticks, release_ticks: None }
    }

    /// The same pass, released at `release_ticks`.
    pub fn release(self, release_ticks: u64) -> (r: RecordingTake)
        ensures
            r == (RecordingTake { start_ticks: self.start_ticks, release_ticks: Some(release_ticks) }),
    {
        RecordingTake { start_ticks: self.start_ticks, release_ticks: Some(release_ticks) }
    }
}

/// The loop a recording pass is folded onto.
#[derive(Debug, Clone, Copy, PartialEq, Eq, Structural)]
pub struct RecordContext {
    pub range: LoopRegion,
    /// Transport position at which the loop phase is zero.
    pub wrap_basis_ticks: u64,
    /// Whether a pass that wraps past the loop end keeps growing from the loop start.
    pub extend_clip_on_wrap: bool,
}

/// Offset of `ticks` inside a loop of the given length that restarts at `wrap_basis`.
pub open spec fn loop_phase(length: int, wrap_basis: int, ticks: int) -> int {
    (ticks - wrap_basis) % length
}

pub open spec fn max_int(a: int, b: int) -> int {
    if a >= b {
        a
    } else {
        b
    }
}

/// `(start, length)` of the region recorded between two capture positions, if any.
pub open spec fn recorded_span(start_capture: int, end_capture: int, context: Option<RecordContext>) -> Option<(int, int)> {
    match context {
        None => if end_capture > start_capture {
            Some((start_capture, end_capture - start_capture))
        } else {
            None
        },
        Some(ctx) => {
            let len = ctx.range.length_ticks as int;
            if len == 0 || end_capture <= start_capture {
                None
            } else {
                let phase = loop_phase(len, ctx.wrap_basis_ticks as int, start_capture);
                let elapsed = end_capture - start_capture;
                if phase + elapsed <= len {
                    Some((ctx.range.start_ticks + phase, elapsed))
                } else if ctx.extend_clip_on_wrap {
                    Some((ctx.range.start_ticks as int, max_int(len, elapsed)))
                } else {
                    Some((ctx.range.start_ticks + phase, len - phase))
                }
            }
        },
    }
}

/// Start of a recorded span.
pub open spec fn span_start(span: Option<(int, int)>) -> int {
    match span {
        Some((start, _)) => start,
        None => 0,
    }
}

/// Length of a recorded span.
pub open spec fn span_len(span: Option<(int, int)>) -> int {
    match span {
        Some((_, len)) => len,
        None => 0,
    }
}

/// A region that lies within the loop it was recorded in ends no later than the loop.
pub proof fn lemma_clamped_span_stays_in_loop(start_capture: int, end_capture: int, ctx: RecordContext)
    requires
        !ctx.extend_clip_on_wrap,
        recorded_span(start_capture, end_capture, Some(ctx)) is Some,
    ensures
        ({
            let (s, l) = recorded_span(start_capture, end_capture, Some(ctx))->0;
            ctx.range.start_ticks <= s && s + l <= ctx.range.spec_end() && l > 0
        }),
{
    let len = ctx.range.length_ticks as int;
    lemma_mod_bound(start_capture - ctx.wrap_basis_ticks, len);
}

/// Computes `loop_phase` on machine integers.
pub fn phase_in_loop(length: u64, wrap_basis: u64, ticks: u64) -> (r: u64)
    requires
        length > 0,
    ensures
        r == loop_phase(length as int, wrap_basis as int, ticks as int),
        r < length,
{
    if ticks >= wrap_basis {
        proof {
            lemma_mod_bound((ticks - wrap_basis) as int, length as int);
        }
        (ticks - wrap_basis) % length
    } else {
        let back = (wrap_basis - ticks) % length;
        proof {
            let a = (wrap_basis - ticks) as int;
            let l = length as int;
            lemma_fundamental_div_mod(a, l);
            lemma_mod_bound(a, l);
            let q = a / l;
            let r = a % l;
            if r == 0 {
                assert(-a == (-q) * l + 0) by (nonlinear_arith)
                    requires
                        a == l * q + r,
                        r == 0,
                ;
                lemma_fundamental_div_mod_converse(-a, l, -q, 0);
            } else {
                assert(-a == (-q - 1) * l + (l - r)) by (nonlinear_arith)
                    requires
                        a == l * q + r,
                ;
                lemma_fundamental_div_mod_converse(-a, l, -q - 1, l - r);
            }
        }
        if back == 0 {
            0
        } else {
            length - back
        }
    }
}

/// The region recorded between two capture positions, owned by `clip_id` when given.
pub fn record_region(
    start_capture: u64,
    end_capture: u64,
    context: Option<RecordContext>,
    clip_id: Option<u64>,
) -> (r: Option<Region>)
    requires
        context matches Some(ctx) ==> ctx.range.wf(),
    ensures
        r is Some <==> recorded_span(start_capture as int, end_capture as int, context) is Some,
        r matches Some(region) ==> {
            let (s, l) = recorded_span(start_capture as int, end_capture as int, context)->0;
            &&& region.start_ticks == s
            &&& region.length_ticks == l
            &&& region.recording_clip_id == clip_id
        },
{
    if end_capture <= start_capture {
        return None;
    }
    let elapsed = end_capture - start_capture;
    match context {
        None => Some(Region { start_ticks: start_capture, length_ticks: elapsed, recording_clip_id: clip_id }),
        Some(ctx) => {
            let len = ctx.range.length_ticks;
            if len == 0 {
                return None;
            }
            let phase = phase_in_loop(len, ctx.wrap_basis_ticks, start_capture);
            if elapsed <= len - phase {
                Some(Region { start_ticks: ctx.range.start_ticks + phase, length_ticks: elapsed, recording_clip_id: clip_id })
            } else if ctx.extend_clip_on_wrap {
                let length = if len >= elapsed { len } else { elapsed };
                Some(Region { start_ticks: ctx.range.start_ticks, length_ticks: length, recording_clip_id: clip_id })
            } else {
                Some(Region { start_ticks: ctx.range.start_ticks + phase, length_ticks: len - phase, recording_clip_id: clip_id })
            }
        },
    }
}

} // verus!
