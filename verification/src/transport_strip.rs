//! The header buttons and the transport strip of the timeline page: a single row of chips,
//! the tempo pad and the status text.
use vstd::prelude::*;
use vstd::string::*;
use crate::actions::AppAction;
use crate::app::App;
use crate::geometry::{Rect, MAX_INT_VALUE, MIN_INT_VALUE, clamped_position};
use crate::text::text_width;

verus! {

/// Gap between two transport chips.
pub const CHIP_GAP: i32 = 6;

/// Widest a transport chip gets.
pub const MAX_CHIP_WIDTH: i32 = 74;

/// Narrowest a transport chip gets.
pub const MIN_CHIP_WIDTH: i32 = 8;

/// The three areas of the transport strip.
#[derive(Debug, Clone, Copy)]
pub struct TransportStripLayout {
    pub buttons_bounds: Rect,
    pub tempo_pad_bounds: Rect,
    pub status_text_bounds: Rect,
}

/// The five cells of the tempo pad: `-`, `+`, `/`, `*` in the corners and tap in the middle.
#[derive(Debug, Clone, Copy)]
pub struct TempoPadLayout {
    pub top_left: Rect,
    pub top_right: Rect,
    pub bottom_left: Rect,
    pub bottom_right: Rect,
    pub center: Rect,
}

/// A chip of the transport strip: its label, the state line under it, and its action.
pub struct TransportChipSpec {
    pub label: &'static str,
    pub sublabel: Option<String>,
    pub action: Option<AppAction>,
}

pub open spec fn min_i(a: int, b: int) -> int {
    if a <= b { a } else { b }
}

pub open spec fn max_i(a: int, b: int) -> int {
    if a >= b { a } else { b }
}

/// Width of each of `count` chips sharing `width` pixels.
pub open spec fn chip_width(width: int, count: int) -> int {
    max_i(min_i((width - CHIP_GAP * (count - 1)) / count, MAX_CHIP_WIDTH as int), MIN_CHIP_WIDTH as int)
}

/// Rounds a position into the `i32` range the way `Rect::new` would.
fn clamp_to_position(v: i64) -> (r: i32)
    ensures
        r == clamped_position(v as int),
{
    if v > MAX_INT_VALUE as i64 {
        MAX_INT_VALUE
    } else if v < MIN_INT_VALUE as i64 {
        MIN_INT_VALUE
    } else {
        v as i32
    }
}

impl TransportStripLayout {
    /// Chip `index` of `count` chips laid out left to right with equal widths, each at most
    /// `MAX_CHIP_WIDTH`; none when the chips do not fit.
    pub fn button_rect(self, index: usize, count: usize) -> (r: Option<Rect>)
        requires
            self.buttons_bounds.wf(),
        ensures
            ({
                let b = self.buttons_bounds;
                let available = b.w - CHIP_GAP * (count - 1);
                let w = chip_width(b.w as int, count as int);
                &&& r is Some <==> (count > 0 && index < count && available > 0)
                &&& r matches Some(rect) ==> rect == Rect::made(b.x + index * (w + CHIP_GAP), b.y as int, w, b.h as int)
                &&& r matches Some(rect) ==> available / (count as int) >= MIN_CHIP_WIDTH ==>
                    b.x <= rect.x && rect.x + rect.w <= b.x + b.w && rect.y == b.y && rect.h == b.h
            }),
    {
        if count == 0 || index >= count || self.buttons_bounds.width() == 0 {
            return None;
        }
        let total_gap: i128 = 6 * ((count - 1) as i128);
        if total_gap >= self.buttons_bounds.width() as i128 {
            return None;
        }
        let available: i64 = (self.buttons_bounds.width() as i128 - total_gap) as i64;
        let share: i64 = available / count as i64;
        let capped: i64 = if share < MAX_CHIP_WIDTH as i64 { share } else { MAX_CHIP_WIDTH as i64 };
        let button_width: i64 = if capped > MIN_CHIP_WIDTH as i64 { capped } else { MIN_CHIP_WIDTH as i64 };
        proof {
            assert(index as int * (button_width + 6) <= 0xffff_ffff_ffff_ffffint * 80) by (nonlinear_arith)
                requires index <= 0xffff_ffff_ffff_ffffint, 0 <= button_width <= 74;
        }
        let offset: i128 = index as i128 * (button_width as i128 + CHIP_GAP as i128);
        let x: i128 = self.buttons_bounds.x as i128 + offset;
        let x_clamped: i64 = if x > MAX_INT_VALUE as i128 { MAX_INT_VALUE as i64 } else { x as i64 };
        proof {
            assert(x >= self.buttons_bounds.x) by (nonlinear_arith)
                requires x == self.buttons_bounds.x + offset, offset == index as int * (button_width + 6), index >= 0, button_width >= 0;
            let av = available as int;
            if av / (count as int) >= MIN_CHIP_WIDTH {
                let c = count as int;
                let bw = button_width as int;
                assert(bw <= av / c);
                vstd::arithmetic::div_mod::lemma_fundamental_div_mod(av, c);
                vstd::arithmetic::div_mod::lemma_mod_pos_bound(av, c);
                assert(c * (av / c) <= av);
                assert(bw * c <= c * (av / c)) by (nonlinear_arith)
                    requires bw <= av / c, c > 0;
                assert(index as int * (bw + 6) + bw <= bw * c + 6 * (c - 1)) by (nonlinear_arith)
                    requires 0 <= index < c, bw >= 0;
            }
        }
        Some(Rect::new(clamp_to_position(x_clamped), self.buttons_bounds.y, button_width as u32, self.buttons_bounds.height()))
    }
}

impl TempoPadLayout {
    /// Splits the pad into corner cells of a third of its width and half its height, at least
    /// 12 pixels each, and the middle column between them.
    pub fn new(bounds: Rect) -> (r: TempoPadLayout)
        requires
            bounds.wf(),
        ensures
            ({
                let cw = max_i((bounds.w / 3) as int, 12);
                let ch = max_i((bounds.h / 2) as int, 12);
                &&& r.top_left == Rect::made(bounds.x as int, bounds.y as int, cw, ch)
                &&& r.top_right == Rect::made(bounds.x + bounds.w - cw, bounds.y as int, cw, ch)
                &&& r.bottom_left == Rect::made(bounds.x as int, bounds.y + bounds.h - ch, cw, ch)
                &&& r.bottom_right == Rect::made(bounds.x + bounds.w - cw, bounds.y + bounds.h - ch, cw, ch)
                &&& r.center == Rect::made(bounds.x + cw, bounds.y as int, if bounds.w >= 2 * cw { bounds.w - 2 * cw } else { 0 }, bounds.h as int)
            }),
    {
        let third = bounds.width() / 3;
        let half = bounds.height() / 2;
        let cell_width: u32 = if third > 12 { third } else { 12 };
        let cell_height: u32 = if half > 12 { half } else { 12 };
        let left_x = bounds.x;
        let center_x = bounds.x + cell_width as i32;
        let right_x = bounds.x + bounds.width() as i32 - cell_width as i32;
        let top_y = bounds.y;
        let bottom_y = bounds.y + bounds.height() as i32 - cell_height as i32;
        TempoPadLayout {
            top_left: Rect::new(left_x, top_y, cell_width, cell_height),
            top_right: Rect::new(right_x, top_y, cell_width, cell_height),
            bottom_left: Rect::new(left_x, bottom_y, cell_width, cell_height),
            bottom_right: Rect::new(right_x, bottom_y, cell_width, cell_height),
            center: Rect::new(
                center_x,
                bounds.y,
                if bounds.width() >= 2 * cell_width { bounds.width() - 2 * cell_width } else { 0 },
                bounds.height(),
            ),
        }
    }
}

/// Name of a pitch class, `0` being C.
pub open spec fn pitch_class_name(pc: nat) -> Seq<char> {
    if pc == 0 { "C"@ } else if pc == 1 { "C#"@ } else if pc == 2 { "D"@ } else if pc == 3 { "D#"@ }
    else if pc == 4 { "E"@ } else if pc == 5 { "F"@ } else if pc == 6 { "F#"@ } else if pc == 7 { "G"@ }
    else if pc == 8 { "G#"@ } else if pc == 9 { "A"@ } else if pc == 10 { "A#"@ } else { "B"@ }
}

/// The name of a harmony root.
pub fn pitch_class_label(pc: u8) -> (r: &'static str)
    ensures
        r@ == pitch_class_name((pc % 12) as nat),
{
    match pc % 12 {
        0 => "C",
        1 => "C#",
        2 => "D",
        3 => "D#",
        4 => "E",
        5 => "F",
        6 => "F#",
        7 => "G",
        8 => "G#",
        9 => "A",
        10 => "A#",
        _ => "B",
    }
}

impl App {
    /// The button that resets the song loop, at the right end of the page header.
    pub fn global_loop_reset_button_rect(&self, header_bounds: Rect) -> (r: Rect)
        requires
            header_bounds.wf(),
        ensures
            r == Rect::made(header_bounds.x + header_bounds.w - 108 - 8, header_bounds.y + 3, 108,
                if header_bounds.h >= 6 { header_bounds.h - 6 } else { 0 }),
    {
        proof {
            reveal_strlit("Reset Song Loop");
        }
        let width = text_width("Reset Song Loop", 1) + 18;
        Rect::new(
            header_bounds.x + header_bounds.width() as i32 - width as i32 - 8,
            header_bounds.y + 3,
            width,
            if header_bounds.height() >= 6 { header_bounds.height() - 6 } else { 0 },
        )
    }

    /// The button that focuses the timeline on the active track, in the page header.
    pub fn focused_track_view_button_rect(&self, header_bounds: Rect) -> (r: Rect)
        requires
            header_bounds.wf(),
        ensures
            r == Rect::made(header_bounds.x + header_bounds.w - 240, header_bounds.y + 3, 78,
                if header_bounds.h >= 6 { header_bounds.h - 6 } else { 0 }),
    {
        proof {
            reveal_strlit("Track All");
        }
        let text = text_width("Track All", 1) + 18;
        Rect::new(
            header_bounds.x + header_bounds.width() as i32 - 240,
            header_bounds.y + 3,
            if text > 78 { text } else { 78 },
            if header_bounds.height() >= 6 { header_bounds.height() - 6 } else { 0 },
        )
    }

    /// Splits the transport strip into chip row, tempo pad and status text, right to left.
    pub fn transport_strip_layout(&self, bounds: Rect) -> (r: TransportStripLayout)
        requires
            bounds.wf(),
        ensures
            ({
                let sw = max_i(min_i(bounds.w as int, 214), 168);
                let h = if bounds.h >= 6 { bounds.h - 6 } else { 0 };
                let status = Rect::made(bounds.x + bounds.w - sw - 2, bounds.y + 3, sw, h);
                &&& r.tempo_pad_bounds == Rect::made(status.x as int, status.y as int, 98, status.h as int)
                &&& r.status_text_bounds == Rect::made(status.x + 98 + 2, status.y as int, sw - 98 - 2, status.h as int)
                &&& r.buttons_bounds == Rect::made(bounds.x + 2, bounds.y + 3,
                    if status.x - (bounds.x + 4) >= 0 { status.x - (bounds.x + 4) } else { MAX_INT_VALUE as int }, h)
            }),
    {
        let narrow = if bounds.width() < 214 { bounds.width() } else { 214 };
        let status_width: u32 = if narrow > 168 { narrow } else { 168 };
        let side_inset: i32 = 2;
        let status_gap: i32 = 2;
        let inner_height = if bounds.height() >= 6 { bounds.height() - 6 } else { 0 };
        let status_bounds = Rect::new(
            bounds.x + bounds.width() as i32 - status_width as i32 - side_inset,
            bounds.y + 3,
            status_width,
            inner_height,
        );
        let tempo_pad_width: u32 = if status_width < 98 { status_width } else { 98 };
        let tempo_pad_bounds = Rect::new(status_bounds.x, status_bounds.y, tempo_pad_width, status_bounds.height());
        let rest = if status_bounds.width() >= tempo_pad_bounds.width() { status_bounds.width() - tempo_pad_bounds.width() } else { 0 };
        let status_text_bounds = Rect::new(
            tempo_pad_bounds.x + tempo_pad_bounds.width() as i32 + status_gap,
            status_bounds.y,
            if rest >= status_gap as u32 { rest - status_gap as u32 } else { 0 },
            status_bounds.height(),
        );
        let span: i32 = status_bounds.x - (bounds.x + 4);
        let buttons_bounds = Rect::new(
            bounds.x + 2,
            bounds.y + 3,
            if span >= 0 { span as u32 } else { u32::MAX },
            inner_height,
        );
        TransportStripLayout { buttons_bounds, tempo_pad_bounds, status_text_bounds }
    }

    /// The actions of the tempo pad cells.
    pub fn tempo_pad_actions(&self, bounds: Rect) -> (r: Vec<(Rect, AppAction)>)
        requires
            bounds.wf(),
        ensures
            ({
                let pad = TempoPadLayout::spec_new(bounds);
                r@ == seq![
                    (pad.top_left, AppAction::DecreaseTempo),
                    (pad.top_right, AppAction::IncreaseTempo),
                    (pad.bottom_left, AppAction::HalfTempo),
                    (pad.bottom_right, AppAction::DoubleTempo),
                    (pad.center, AppAction::TapTempo),
                ]
            }),
    {
        let layout = TempoPadLayout::new(bounds);
        let r = vec![
            (layout.top_left, AppAction::DecreaseTempo),
            (layout.top_right, AppAction::IncreaseTempo),
            (layout.bottom_left, AppAction::HalfTempo),
            (layout.bottom_right, AppAction::DoubleTempo),
            (layout.center, AppAction::TapTempo),
        ];
        assert(r@ =~= seq![
            (layout.top_left, AppAction::DecreaseTempo),
            (layout.top_right, AppAction::IncreaseTempo),
            (layout.bottom_left, AppAction::HalfTempo),
            (layout.bottom_right, AppAction::DoubleTempo),
            (layout.center, AppAction::TapTempo),
        ]);
        r
    }
}

impl TempoPadLayout {
    /// `TempoPadLayout::new` as a spec function.
    pub open spec fn spec_new(bounds: Rect) -> TempoPadLayout {
        let cw = max_i((bounds.w / 3) as int, 12);
        let ch = max_i((bounds.h / 2) as int, 12);
        TempoPadLayout {
            top_left: Rect::made(bounds.x as int, bounds.y as int, cw, ch),
            top_right: Rect::made(bounds.x + bounds.w - cw, bounds.y as int, cw, ch),
            bottom_left: Rect::made(bounds.x as int, bounds.y + bounds.h - ch, cw, ch),
            bottom_right: Rect::made(bounds.x + bounds.w - cw, bounds.y + bounds.h - ch, cw, ch),
            center: Rect::made(bounds.x + cw, bounds.y as int, if bounds.w >= 2 * cw { bounds.w - 2 * cw } else { 0 }, bounds.h as int),
        }
    }
}

/// The state line of the loop-wrap chip.
pub open spec fn wrap_label(extends: bool) -> Seq<char> {
    if extends { "Ext"@ } else { "Clamp"@ }
}

/// Number of transport chips.
pub const TRANSPORT_CHIP_COUNT: usize = 5;

/// Label and action of transport chip `i`.
pub open spec fn chip_label(i: int) -> Seq<char> {
    if i == 0 { "Play"@ } else if i == 1 { "Record"@ } else if i == 2 { "Rec Wrap"@ } else if i == 3 { "Song Loop"@ } else { "Harmony"@ }
}

pub open spec fn chip_action(i: int) -> AppAction {
    if i == 0 {
        AppAction::TogglePlayback
    } else if i == 1 {
        AppAction::ToggleRecording
    } else if i == 2 {
        AppAction::ToggleLoopRecordingExtension
    } else if i == 3 {
        AppAction::ToggleSongLoop
    } else {
        AppAction::CycleHarmonyRoot
    }
}

impl App {
    /// The chips of the transport strip, left to right: play, record, loop-wrap extension
    /// (`Ext` or `Clamp`), song loop, and the shared harmony root.
    pub fn transport_button_specs(&self) -> (r: Vec<TransportChipSpec>)
        ensures
            r@.len() == TRANSPORT_CHIP_COUNT,
            forall|i: int| 0 <= i < TRANSPORT_CHIP_COUNT ==> (#[trigger] r@[i]).label@ == chip_label(i)
                && r@[i].action == Some(chip_action(i)),
            r@[0].sublabel is None,
            r@[1].sublabel is None,
            r@[2].sublabel matches Some(s) && s@ == wrap_label(self.project.transport.loop_recording_extends_clip),
            r@[3].sublabel is None,
            r@[4].sublabel matches Some(s) && s@ == pitch_class_name((self.project.transport.harmony_root % 12) as nat),
    {
        let mut r: Vec<TransportChipSpec> = Vec::new();
        r.push(TransportChipSpec { label: "Play", sublabel: None, action: Some(AppAction::TogglePlayback) });
        r.push(TransportChipSpec { label: "Record", sublabel: None, action: Some(AppAction::ToggleRecording) });
        let wrap = if self.project.transport.loop_recording_extends_clip { "Ext" } else { "Clamp" };
        r.push(TransportChipSpec { label: "Rec Wrap", sublabel: Some(String::from_str(wrap)), action: Some(AppAction::ToggleLoopRecordingExtension) });
        r.push(TransportChipSpec { label: "Song Loop", sublabel: None, action: Some(AppAction::ToggleSongLoop) });
        let root = pitch_class_label(self.project.transport.harmony_root);
        r.push(TransportChipSpec { label: "Harmony", sublabel: Some(String::from_str(root)), action: Some(AppAction::CycleHarmonyRoot) });
        r
    }

    /// Every clickable area of the transport strip with its action: the chips that fit, then
    /// the tempo pad cells.
    pub fn transport_chip_actions(&self, bounds: Rect) -> (r: Vec<(Rect, AppAction)>)
        requires
            bounds.wf(),
        ensures
            ({
                let layout = self.spec_transport_strip_layout(bounds);
                let pad = TempoPadLayout::spec_new(layout.tempo_pad_bounds);
                let chips = if layout.buttons_bounds.w - CHIP_GAP * 4 > 0 { 5int } else { 0int };
                &&& r@.len() == chips + 5
                &&& forall|i: int| 0 <= i < chips ==> (#[trigger] r@[i]).1 == chip_action(i)
                    && r@[i].0 == Rect::made(layout.buttons_bounds.x + i * (chip_width(layout.buttons_bounds.w as int, 5) + CHIP_GAP),
                        layout.buttons_bounds.y as int, chip_width(layout.buttons_bounds.w as int, 5), layout.buttons_bounds.h as int)
                &&& r@.subrange(chips, chips + 5) == seq![
                    (pad.top_left, AppAction::DecreaseTempo),
                    (pad.top_right, AppAction::IncreaseTempo),
                    (pad.bottom_left, AppAction::HalfTempo),
                    (pad.bottom_right, AppAction::DoubleTempo),
                    (pad.center, AppAction::TapTempo),
                ]
            }),
            bounds.w >= 300 && bounds.h >= 18 && bounds.x + bounds.w <= MAX_INT_VALUE && bounds.y + bounds.h <= MAX_INT_VALUE
                ==> forall|i: int| 0 <= i < r@.len() ==> (#[trigger] r@[i]).0.inside(bounds),
            r@ == self.spec_chip_actions(bounds),
    {
        let layout = self.transport_strip_layout(bounds);
        let specs = self.transport_button_specs();
        let count = specs.len();
        let mut rects: Vec<(Rect, AppAction)> = Vec::new();
        let mut i: usize = 0;
        while i < count
            invariant
                count == TRANSPORT_CHIP_COUNT,
                i <= count,
                layout == self.spec_transport_strip_layout(bounds),
                layout.buttons_bounds.wf(),
                forall|k: int| 0 <= k < TRANSPORT_CHIP_COUNT ==> (#[trigger] specs@[k]).action == Some(chip_action(k)),
                specs@.len() == count,
                rects@.len() == (if layout.buttons_bounds.w - CHIP_GAP * 4 > 0 { i as int } else { 0int }),
                forall|k: int| 0 <= k < rects@.len() ==> (#[trigger] rects@[k]).1 == chip_action(k)
                    && rects@[k].0 == Rect::made(layout.buttons_bounds.x + k * (chip_width(layout.buttons_bounds.w as int, 5) + CHIP_GAP),
                        layout.buttons_bounds.y as int, chip_width(layout.buttons_bounds.w as int, 5), layout.buttons_bounds.h as int),
                forall|k: int| 0 <= k < rects@.len() ==> ((layout.buttons_bounds.w - CHIP_GAP * 4) / 5 >= MIN_CHIP_WIDTH
                    ==> (#[trigger] rects@[k]).0.inside(layout.buttons_bounds)),
            decreases count - i,
        {
            match (layout.button_rect(i, count), specs[i].action) {
                (Some(chip), Some(action)) => {
                    rects.push((chip, action));
                },
                _ => {},
            }
            i = i + 1;
        }
        let mut pad = self.tempo_pad_actions(layout.tempo_pad_bounds);
        let ghost chips = rects@;
        let ghost pad_seq = pad@;
        rects.append(&mut pad);
        proof {
            assert(rects@.subrange(chips.len() as int, chips.len() as int + 5) =~= pad_seq);
            let n = if layout.buttons_bounds.w - CHIP_GAP * 4 > 0 { 5int } else { 0int };
            assert(chips =~= Seq::new(n as nat, |i: int| chip_entry(layout.buttons_bounds, i)));
            assert(rects@ =~= chips + pad_seq);
        }
        rects
    }

    /// The transport chips and then the tempo pad buttons of the strip in `bounds`, each
    /// with the action it carries out.
    pub open spec fn spec_chip_actions(self, bounds: Rect) -> Seq<(Rect, AppAction)> {
        let layout = self.spec_transport_strip_layout(bounds);
        let pad = TempoPadLayout::spec_new(layout.tempo_pad_bounds);
        let n = if layout.buttons_bounds.w - CHIP_GAP * 4 > 0 { 5int } else { 0int };
        Seq::new(n as nat, |i: int| chip_entry(layout.buttons_bounds, i)) + seq![
            (pad.top_left, AppAction::DecreaseTempo),
            (pad.top_right, AppAction::IncreaseTempo),
            (pad.bottom_left, AppAction::HalfTempo),
            (pad.bottom_right, AppAction::DoubleTempo),
            (pad.center, AppAction::TapTempo),
        ]
    }

    /// `transport_strip_layout` as a spec function.
    pub open spec fn spec_transport_strip_layout(self, bounds: Rect) -> TransportStripLayout {
        let sw = max_i(min_i(bounds.w as int, 214), 168);
        let h = if bounds.h >= 6 { bounds.h - 6 } else { 0 };
        let status = Rect::made(bounds.x + bounds.w - sw - 2, bounds.y + 3, sw, h);
        TransportStripLayout {
            buttons_bounds: Rect::made(bounds.x + 2, bounds.y + 3,
                if status.x - (bounds.x + 4) >= 0 { status.x - (bounds.x + 4) } else { MAX_INT_VALUE as int }, h),
            tempo_pad_bounds: Rect::made(status.x as int, status.y as int, 98, status.h as int),
            status_text_bounds: Rect::made(status.x + 98 + 2, status.y as int, sw - 98 - 2, status.h as int),
        }
    }
}

/// Chip `i` of the chip row `buttons` and its action.
pub open spec fn chip_entry(buttons: Rect, i: int) -> (Rect, AppAction) {
    (Rect::made(buttons.x + i * (chip_width(buttons.w as int, 5) + CHIP_GAP), buttons.y as int,
        chip_width(buttons.w as int, 5), buttons.h as int), chip_action(i))
}

} // verus!
