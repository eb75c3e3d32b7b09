//! Layout and labels of the FX racks drawn above and below each track: a two-by-two grid of
//! square slots and, for the selected slot, an inspector with four parameter cells and the
//! reorder arrows.
use vstd::prelude::*;
use vstd::string::*;
use crate::actions::page_item_adjusted;
use crate::app::{App, AppControl, PageState, TimelineContext, TimelineFxField, UiDensityPreset};
use crate::fx_rack::{DISPLAYED_FX_ROWS, fx_kind_adjusted, fx_moved, fx_window_set, min_nat, unchanged};
use crate::geometry::{lemma_made_wf, rect_contains};
use crate::project::{MidiFxChainKind, Track};
use crate::geometry::{Rect, MAX_INT_VALUE, MIN_INT_VALUE, clamped_position};
use crate::midi_fx::MidiFxSlot;
use crate::text::{decimal, push_decimal, spec_text_width, text_width};

verus! {

/// Where the hit targets of one slot of a rack are. Targets a slot does not show lie far
/// off screen.
#[derive(Debug, Clone, Copy)]
pub struct TimelineFxRowLayout {
    pub row: Rect,
    pub enabled: Rect,
    pub kind: Rect,
    pub param_primary: Rect,
    pub param_secondary: Rect,
    pub parameters: [Rect; 4],
    pub overflow: Rect,
    pub move_up: Rect,
    pub move_down: Rect,
    pub delete: Rect,
}

/// The off-screen place of hidden targets.
pub open spec fn hidden_rect() -> Rect {
    Rect { x: -10000i32, y: -10000i32, w: 1u32, h: 1u32 }
}

pub open spec fn max_of(a: int, b: int) -> int {
    if a >= b { a } else { b }
}

pub open spec fn min_of(a: int, b: int) -> int {
    if a <= b { a } else { b }
}

/// Side of a slot square in a band: half the band height, at most a quarter of the width
/// beside the inspector, never under 7 pixels.
pub open spec fn slot_side(band: Rect) -> int {
    min_of(
        max_of((if band.h >= 6 { band.h - 6 } else { 0 }) / 2, 7),
        max_of((if band.w >= 24 { band.w - 24 } else { 0 }) / 4, 7),
    )
}

/// Left edge of the inspector.
pub open spec fn inspector_left(band: Rect) -> int {
    band.x + 2 + (slot_side(band) * 2 + 2) + 12
}

/// Width and height of the inspector.
pub open spec fn inspector_width(band: Rect) -> int {
    max_of(band.x + band.w - inspector_left(band) - 2, 2)
}

pub open spec fn inspector_height(band: Rect) -> int {
    max_of(if band.h >= 4 { band.h - 4 } else { 0 }, 2)
}

/// The square of slot `i`: two per row, left to right and top to bottom.
pub open spec fn slot_square(band: Rect, i: int) -> Rect {
    let side = slot_side(band);
    Rect::made(band.x + 2 + (i % 2) * (side + 2), band.y + 2 + (i / 2) * (side + 2), side, side)
}

/// Parameter cell `p` of the inspector: a two-by-two grid.
pub open spec fn parameter_cell(band: Rect, p: int) -> Rect {
    let pw = inspector_width(band);
    let ph = inspector_height(band);
    Rect::made(
        inspector_left(band) + (p % 2) * (pw / 2),
        band.y + 2 + (p / 2) * (ph / 2),
        if p % 2 == 0 { pw / 2 } else { pw - pw / 2 },
        if p / 2 == 0 { ph / 2 } else { ph - ph / 2 },
    )
}

/// The layout of slot `i` of a rack whose inspector shows slot `chosen`.
pub open spec fn row_layout(band: Rect, i: int, chosen: int) -> TimelineFxRowLayout {
    let square = slot_square(band, i);
    let ph = inspector_height(band);
    let shown = i == chosen;
    let cell = |p: int| if shown { parameter_cell(band, p) } else { hidden_rect() };
    TimelineFxRowLayout {
        row: square,
        enabled: hidden_rect(),
        kind: square,
        param_primary: cell(0),
        param_secondary: cell(1),
        parameters: [cell(0), cell(1), cell(2), cell(3)],
        overflow: hidden_rect(),
        move_up: if shown { Rect::made(inspector_left(band) - 10, band.y + 2, 8, ph / 2) } else { hidden_rect() },
        move_down: if shown { Rect::made(inspector_left(band) - 10, band.y + 2 + ph / 2, 8, ph - ph / 2) } else { hidden_rect() },
        delete: hidden_rect(),
    }
}

/// Rounds a position into the `i32` range the way `Rect::new` would.
fn position(v: i128) -> (r: i32)
    ensures
        r == clamped_position(v as int),
{
    if v > MAX_INT_VALUE as i128 {
        MAX_INT_VALUE
    } else if v < MIN_INT_VALUE as i128 {
        MIN_INT_VALUE
    } else {
        v as i32
    }
}

/// The enabled chip shows the two-letter kind code only when the kind title is hidden.
pub fn timeline_fx_enabled_chip_label(slot: &MidiFxSlot, show_kind_title: bool) -> (r: &'static str)
    ensures
        r@ == (if show_kind_title { ""@ } else { slot.effect.spec_kind().spec_compact_label() }),
{
    if show_kind_title {
        ""
    } else {
        slot.effect.kind().compact_label()
    }
}

/// The kind name that fits `width` pixels: the full name with two pixels of padding on each
/// side, else the three-letter name from 20 pixels on, else the two-letter code.
pub fn timeline_fx_kind_display(slot: &MidiFxSlot, width: u32) -> (r: &'static str)
    ensures
        ({
            let kind = slot.effect.spec_kind();
            r@ == (if spec_text_width(kind.spec_label().len(), 1) + 4 <= width {
                kind.spec_label()
            } else if width >= 20 {
                kind.spec_short_label()
            } else {
                kind.spec_compact_label()
            })
        }),
{
    let kind = slot.effect.kind();
    let label = kind.label();
    proof {
        reveal_strlit("Arp");
        reveal_strlit("Note Filter");
        reveal_strlit("Transpose");
        reveal_strlit("Velocity");
        reveal_strlit("Duration");
        reveal_strlit("Scale Filter");
        reveal_strlit("Scale Quantize");
        reveal_strlit("Chord Quantize");
        reveal_strlit("Delay");
        reveal_strlit("Track Clone");
    }
    if text_width(label, 1) as u64 + 4 <= width as u64 {
        label
    } else if width >= 20 {
        kind.short_label()
    } else {
        kind.compact_label()
    }
}

/// Width a kind name asks for in a compact card: five pixels per letter of the three-letter
/// name (when at least 72 pixels are available) or of the two-letter code, plus eight, kept
/// within 20 to 28 pixels.
pub fn timeline_fx_kind_target_width(slot: &MidiFxSlot, available: u32) -> (r: u32)
    ensures
        ({
            let kind = slot.effect.spec_kind();
            let label = if available >= 72 { kind.spec_short_label() } else { kind.spec_compact_label() };
            let wanted = label.len() * 5 + 8;
            r == (if wanted < 20 { 20 } else if wanted > 28 { 28 } else { wanted })
        }),
{
    let kind = slot.effect.kind();
    let label = if available >= 72 { kind.short_label() } else { kind.compact_label() };
    let len = label.unicode_len();
    if len > 4 {
        return 28;
    }
    let wanted = len as u32 * 5 + 8;
    if wanted < 20 {
        20
    } else if wanted > 28 {
        28
    } else {
        wanted
    }
}

/// Position of the parameter window among the windows of an effect: `--` for effects whose
/// parameters all fit, else `start/windows` counting from one.
pub fn timeline_fx_overflow_label(param_count: usize, window_start: usize) -> (r: String)
    requires
        window_start < usize::MAX,
    ensures
        r@ == (if param_count <= 2 {
            "--"@
        } else {
            decimal((window_start + 1) as nat) + "/"@ + decimal((param_count - 1) as nat)
        }),
{
    if param_count <= 2 {
        return String::from_str("--");
    }
    let mut label = String::new();
    push_decimal(&mut label, (window_start + 1) as u64);
    label.append("/");
    push_decimal(&mut label, (param_count - 1) as u64);
    label
}

impl App {
    /// Height of an FX rack card at the current density.
    pub fn timeline_fx_card_height(&self) -> (r: i32)
        ensures
            r == (match self.ui_density_preset {
                UiDensityPreset::Default => 44int,
                UiDensityPreset::Compact => 38int,
                UiDensityPreset::Tiny => 32int,
                UiDensityPreset::Touch => 52int,
            }),
    {
        match self.ui_density_preset {
            UiDensityPreset::Default => 44,
            UiDensityPreset::Compact => 38,
            UiDensityPreset::Tiny => 32,
            UiDensityPreset::Touch => 52,
        }
    }

    /// Hit targets of each displayed slot of a rack drawn in `band`; the inspector belongs to
    /// the selected slot (the first one when the selection is out of range).
    pub fn timeline_fx_row_layouts(
        &self,
        band: Rect,
        displayed: &[Option<usize>],
        chain: &[Option<MidiFxSlot>],
        selected: Option<usize>,
    ) -> (r: Vec<TimelineFxRowLayout>)
        requires
            band.wf(),
        ensures
            r@.len() == displayed@.len(),
            forall|i: int| 0 <= i < r@.len() ==> #[trigger] r@[i] == row_layout(band, i,
                match selected { Some(s) => if s < displayed@.len() { s as int } else { 0 }, None => 0 }),
    {
        let hidden = Rect::new(-10000, -10000, 1, 1);
        let half_height = (if band.height() >= 6 { band.height() - 6 } else { 0 }) / 2;
        let quarter_width = (if band.width() >= 24 { band.width() - 24 } else { 0 }) / 4;
        let tall = if half_height > 7 { half_height } else { 7 };
        let wide = if quarter_width > 7 { quarter_width } else { 7 };
        let side: u32 = if tall < wide { tall } else { wide };
        let px: i64 = band.x as i64 + 2 + (side as i64 * 2 + 2) + 12;
        let span: i64 = band.x as i64 + band.width() as i64 - px - 2;
        let pw: u32 = if span > 2 { span as u32 } else { 2 };
        let ph: u32 = if band.height() >= 4 { if band.height() - 4 > 2 { band.height() - 4 } else { 2 } } else { 2 };
        let chosen: usize = match selected {
            Some(s) => if s < displayed.len() { s } else { 0 },
            None => 0,
        };
        let mut layouts: Vec<TimelineFxRowLayout> = Vec::new();
        let mut i: usize = 0;
        while i < displayed.len()
            invariant
                i <= displayed@.len(),
                band.wf(),
                hidden == hidden_rect(),
                side == slot_side(band),
                px == inspector_left(band),
                pw == inspector_width(band),
                ph == inspector_height(band),
                chosen == (match selected { Some(s) => if s < displayed@.len() { s as int } else { 0 }, None => 0 }),
                layouts@.len() == i,
                forall|k: int| 0 <= k < i ==> #[trigger] layouts@[k] == row_layout(band, k, chosen as int),
            decreases displayed@.len() - i,
        {
            let column: i128 = (i % 2) as i128;
            let line: i128 = (i / 2) as i128;
            assert(0 <= line * (side as i128 + 2) <= 0xffff_ffff_ffff_ffffint * 0x1_0000_0002int) by (nonlinear_arith)
                requires 0 <= line <= 0xffff_ffff_ffff_ffffint, 0 <= side <= 0xffff_ffffint;
            assert(0 <= column * (side as i128 + 2) <= 0x1_0000_0002int) by (nonlinear_arith)
                requires 0 <= column <= 1, 0 <= side <= 0xffff_ffffint;
            let square = Rect::new(
                position(band.x as i128 + 2 + column * (side as i128 + 2)),
                position(band.y as i128 + 2 + line * (side as i128 + 2)),
                side,
                side,
            );
            let shown = i == chosen;
            let mut cells = [hidden, hidden, hidden, hidden];
            let mut up = hidden;
            let mut down = hidden;
            if shown {
                let mut p: usize = 0;
                while p < 4
                    invariant
                        p <= 4,
                        band.wf(),
                        px == inspector_left(band),
                        pw == inspector_width(band),
                        ph == inspector_height(band),
                        forall|q: int| 0 <= q < p ==> #[trigger] cells[q] == parameter_cell(band, q),
                        forall|q: int| p <= q < 4 ==> #[trigger] cells[q] == hidden_rect(),
                    decreases 4 - p,
                {
                    assert(0 <= ((p % 2) as int) * ((pw / 2) as int) <= 0xffff_ffffint) by (nonlinear_arith)
                        requires 0 <= p % 2 <= 1, 0 <= pw / 2 <= 0xffff_ffffint;
                    assert(0 <= ((p / 2) as int) * ((ph / 2) as int) <= 0x2_0000_0000int) by (nonlinear_arith)
                        requires 0 <= p / 2 <= 2, 0 <= ph / 2 <= 0xffff_ffffint;
                    let cell = Rect::new(
                        position(px as i128 + ((p % 2) as i128) * ((pw / 2) as i128)),
                        position(band.y as i128 + 2 + ((p / 2) as i128) * ((ph / 2) as i128)),
                        if p % 2 == 0 { pw / 2 } else { pw - pw / 2 },
                        if p / 2 == 0 { ph / 2 } else { ph - ph / 2 },
                    );
                    cells[p] = cell;
                    p = p + 1;
                }
                up = Rect::new(position(px as i128 - 10), band.y + 2, 8, ph / 2);
                down = Rect::new(position(px as i128 - 10), position(band.y as i128 + 2 + (ph / 2) as i128), 8, ph - ph / 2);
            }
            let layout = TimelineFxRowLayout {
                row: square,
                enabled: hidden,
                kind: square,
                param_primary: cells[0],
                param_secondary: cells[1],
                parameters: cells,
                overflow: hidden,
                move_up: up,
                move_down: down,
                delete: hidden,
            };
            proof {
                let expected = row_layout(band, i as int, chosen as int);
                assert(square == slot_square(band, i as int));
                assert(layout.row == expected.row);
                assert(layout.move_up == expected.move_up);
                assert(layout.move_down == expected.move_down);
                assert(layout.param_primary == expected.param_primary);
                assert(layout.param_secondary == expected.param_secondary);
                assert(layout.parameters@ =~= expected.parameters@);
                assert(layout.parameters =~= expected.parameters);
                assert(layout == expected);
            }
            layouts.push(layout);
            i = i + 1;
        }
        layouts
    }
}

/// A pointer hit on a slot of an FX rack.
#[derive(Debug, Clone, Copy)]
pub struct TimelineFxRowRef {
    pub context: TimelineContext,
    pub row_index: usize,
    pub slot_index: Option<usize>,
    pub layout: TimelineFxRowLayout,
}

/// Every hit target of the layout is a well-formed rectangle.
pub open spec fn layout_wf(l: TimelineFxRowLayout) -> bool {
    &&& l.row.wf()
    &&& l.parameters[0].wf()
    &&& l.parameters[1].wf()
    &&& l.parameters[2].wf()
    &&& l.parameters[3].wf()
    &&& l.move_up.wf()
    &&& l.move_down.wf()
}

/// The point lies on one of the targets of the slot: its square, a parameter cell or an
/// arrow.
pub open spec fn layout_hit(l: TimelineFxRowLayout, x: int, y: int) -> bool {
    ||| l.row.contains(x, y)
    ||| l.parameters[0].contains(x, y)
    ||| l.parameters[1].contains(x, y)
    ||| l.parameters[2].contains(x, y)
    ||| l.parameters[3].contains(x, y)
    ||| l.move_up.contains(x, y)
    ||| l.move_down.contains(x, y)
}

/// The inspector of a rack belongs to its stored selected row, at most the fourth.
pub open spec fn inspected_row(track: Track, kind: MidiFxChainKind) -> int {
    let stored = track.midi_fx.stored_row(kind) as int;
    let capped = if stored < 3 { stored } else { 3 };
    let rows = min_nat(track.midi_fx.chain(kind).len(), DISPLAYED_FX_ROWS as nat);
    if capped < rows { capped } else { 0 }
}

pub proof fn lemma_row_layout_wf(band: Rect, i: int, chosen: int)
    requires
        band.wf(),
    ensures
        layout_wf(row_layout(band, i, chosen)),
{
    let side = slot_side(band);
    lemma_made_wf(band.x + 2 + (i % 2) * (side + 2), band.y + 2 + (i / 2) * (side + 2), side, side);
    let pw = inspector_width(band);
    let ph = inspector_height(band);
    assert(pw - pw / 2 >= 0);
    assert(ph - ph / 2 >= 0);
    if i == chosen {
        lemma_made_wf(inspector_left(band), band.y + 2, pw / 2, ph / 2);
        lemma_made_wf(inspector_left(band) + pw / 2, band.y + 2, pw - pw / 2, ph / 2);
        lemma_made_wf(inspector_left(band), band.y + 2 + ph / 2, pw / 2, ph - ph / 2);
        lemma_made_wf(inspector_left(band) + pw / 2, band.y + 2 + ph / 2, pw - pw / 2, ph - ph / 2);
        lemma_made_wf(inspector_left(band) - 10, band.y + 2, 8, ph / 2);
        lemma_made_wf(inspector_left(band) - 10, band.y + 2 + ph / 2, 8, ph - ph / 2);
        assert(parameter_cell(band, 0).wf());
        assert(parameter_cell(band, 1).wf());
        assert(parameter_cell(band, 2).wf());
        assert(parameter_cell(band, 3).wf());
    }
}

/// Whether the point hits one of the targets of the slot.
pub fn layout_hits(l: &TimelineFxRowLayout, x: i32, y: i32) -> (r: bool)
    requires
        layout_wf(*l),
    ensures
        r == layout_hit(*l, x as int, y as int),
{
    rect_contains(l.row, x, y)
        || rect_contains(l.parameters[0], x, y)
        || rect_contains(l.parameters[1], x, y)
        || rect_contains(l.parameters[2], x, y)
        || rect_contains(l.parameters[3], x, y)
        || rect_contains(l.move_up, x, y)
        || rect_contains(l.move_down, x, y)
}

impl App {
    /// The slot of the rack of `track` drawn in `band` that a pointer at `(x, y)` hits, the
    /// first in row order.
    pub fn timeline_fx_hit(&self, context: TimelineContext, band: Rect, track: &Track, x: i32, y: i32) -> (r: Option<TimelineFxRowRef>)
        requires
            band.wf(),
        ensures
            context.spec_chain_kind() is None ==> r is None,
            context.spec_chain_kind() matches Some(kind) ==> {
                let rows = min_nat(track.midi_fx.chain(kind).len(), DISPLAYED_FX_ROWS as nat) as int;
                let chosen = inspected_row(*track, kind);
                &&& r matches Some(hit) ==> {
                    &&& hit.context == context
                    &&& hit.row_index < rows
                    &&& hit.slot_index == Some(hit.row_index)
                    &&& hit.layout == row_layout(band, hit.row_index as int, chosen)
                    &&& layout_hit(hit.layout, x as int, y as int)
                    &&& forall|k: int| 0 <= k < hit.row_index ==> !layout_hit(#[trigger] row_layout(band, k, chosen), x as int, y as int)
                }
                &&& r is None ==> forall|k: int| 0 <= k < rows ==> !layout_hit(#[trigger] row_layout(band, k, chosen), x as int, y as int)
            },
            r == spec_fx_hit(context, band, *track, x as int, y as int),
    {
        let kind = match context.chain_kind() {
            Some(kind) => kind,
            None => return None,
        };
        let displayed = self.displayed_timeline_fx_slot_indices_for_track(track, kind);
        let stored = track.midi_fx.selected_row(kind);
        let selected = if stored < 3 { stored } else { 3 };
        let chain = match kind {
            MidiFxChainKind::Input => track.midi_fx.input_fx.as_slice(),
            MidiFxChainKind::Output => track.midi_fx.output_fx.as_slice(),
        };
        let layouts = self.timeline_fx_row_layouts(band, displayed.as_slice(), chain, Some(selected));
        let ghost chosen = inspected_row(*track, kind);
        let mut row_index: usize = 0;
        while row_index < layouts.len()
            invariant
                row_index <= layouts@.len(),
                band.wf(),
                context.spec_chain_kind() == Some(kind),
                chosen == inspected_row(*track, kind),
                layouts@.len() == displayed@.len(),
                displayed@.len() == min_nat(track.midi_fx.chain(kind).len(), DISPLAYED_FX_ROWS as nat),
                forall|i: int| 0 <= i < displayed@.len() ==> #[trigger] displayed@[i] == Some(i as usize),
                forall|i: int| 0 <= i < layouts@.len() ==> #[trigger] layouts@[i] == row_layout(band, i, chosen),
                forall|k: int| 0 <= k < row_index ==> !layout_hit(#[trigger] row_layout(band, k, chosen), x as int, y as int),
                first_fx_row(band, chosen, layouts@.len() as int, x as int, y as int, 0)
                    == first_fx_row(band, chosen, layouts@.len() as int, x as int, y as int, row_index as int),
            decreases layouts@.len() - row_index,
        {
            let layout = layouts[row_index];
            proof {
                lemma_row_layout_wf(band, row_index as int, chosen);
            }
            if layout_hits(&layout, x, y) {
                return Some(TimelineFxRowRef { context, row_index, slot_index: displayed[row_index], layout });
            }
            row_index = row_index + 1;
        }
        None
    }
}

/// The first row, from row `k` on among `rows` rows of a rack in `band`, whose targets hold
/// the point.
pub open spec fn first_fx_row(band: Rect, chosen: int, rows: int, x: int, y: int, k: int) -> Option<int>
    decreases rows - k,
{
    if k < 0 || k >= rows {
        None
    } else if layout_hit(row_layout(band, k, chosen), x, y) {
        Some(k)
    } else {
        first_fx_row(band, chosen, rows, x, y, k + 1)
    }
}

/// The slot of the rack of `context` in `band` that a press at the point lands on.
pub open spec fn spec_fx_hit(context: TimelineContext, band: Rect, track: Track, x: int, y: int) -> Option<TimelineFxRowRef> {
    match context.spec_chain_kind() {
        None => None,
        Some(kind) => {
            let rows = min_nat(track.midi_fx.chain(kind).len(), DISPLAYED_FX_ROWS as nat) as int;
            let chosen = inspected_row(track, kind);
            match first_fx_row(band, chosen, rows, x, y, 0) {
                Some(i) => Some(TimelineFxRowRef {
                    context,
                    row_index: i as usize,
                    slot_index: Some(i as usize),
                    layout: row_layout(band, i, chosen),
                }),
                None => None,
            }
        },
    }
}

/// The first parameter cell of the slot under the point.
pub open spec fn first_parameter_hit(l: TimelineFxRowLayout, x: int, y: int) -> Option<int> {
    if l.parameters[0].contains(x, y) {
        Some(0)
    } else if l.parameters[1].contains(x, y) {
        Some(1)
    } else if l.parameters[2].contains(x, y) {
        Some(2)
    } else if l.parameters[3].contains(x, y) {
        Some(3)
    } else {
        None
    }
}

/// The app with the FX edit field set to `field`.
pub open spec fn with_field(a: App, field: TimelineFxField) -> App {
    App { page_state: PageState { selected_timeline_fx_field: field, ..a.page_state }, ..a }
}

/// Effect of `handle_timeline_fx_pointer_hit`: an arrow moves the effect; a parameter cell of
/// the selected effect selects that parameter and steps it down on the left half and up on
/// the right half; the square selects kind editing and, when the slot was already selected
/// for kind editing, steps the kind.
pub open spec fn fx_pointer_handled(a: App, b: App, hit: TimelineFxRowRef, x: int, y: int, was_selected: bool) -> bool {
    let l = hit.layout;
    if l.move_up.contains(x, y) || l.move_down.contains(x, y) {
        fx_moved(with_field(a, TimelineFxField::Kind), b, if l.move_up.contains(x, y) { -1i32 } else { 1i32 })
    } else {
        match first_parameter_hit(l, x, y) {
            Some(p) => match hit.context.spec_chain_kind() {
                None => unchanged(a, b),
                Some(kind) => {
                    let count = match a.spec_selected_content(kind) { Some(slot) => slot.effect.spec_param_count() as int, None => 0 };
                    let cell = l.parameters[p];
                    if p < count {
                        exists|mid: App| #[trigger] fx_window_set(with_field(a, TimelineFxField::ParamPrimary), mid, kind, p as usize)
                            && page_item_adjusted(mid, b, if x < cell.x + cell.w / 2 { -1i32 } else { 1i32 })
                    } else {
                        unchanged(a, b)
                    }
                },
            },
            None => if was_selected && a.page_state.selected_timeline_fx_field == TimelineFxField::Kind {
                fx_kind_adjusted(with_field(a, TimelineFxField::Kind), b, 1i32)
            } else {
                unchanged(with_field(a, TimelineFxField::Kind), b)
            },
        }
    }
}

impl App {
    /// Carries out a pointer press on a slot of an FX rack whose row is already selected;
    /// `was_selected` tells whether it was selected before the press.
    pub fn handle_timeline_fx_pointer_hit(&mut self, hit: TimelineFxRowRef, x: i32, y: i32, was_selected: bool) -> (r: Option<AppControl>)
        requires
            old(self).wf(),
            layout_wf(hit.layout),
        ensures
            final(self).wf(),
            fx_pointer_handled(*old(self), *final(self), hit, x as int, y as int, was_selected),
            r is None <==> (!hit.layout.move_up.contains(x as int, y as int) && !hit.layout.move_down.contains(x as int, y as int)
                && first_parameter_hit(hit.layout, x as int, y as int) is Some && hit.context.spec_chain_kind() is None),
            r is Some ==> r == Some(AppControl::Continue),
    {
        let layout = hit.layout;
        let up = rect_contains(layout.move_up, x, y);
        if up || rect_contains(layout.move_down, x, y) {
            self.page_state.selected_timeline_fx_field = TimelineFxField::Kind;
            let ghost mid = *self;
            assert(mid == with_field(*old(self), TimelineFxField::Kind));
            if up {
                self.move_selected_timeline_fx(-1);
            } else {
                self.move_selected_timeline_fx(1);
            }
            return Some(AppControl::Continue);
        }
        let index: Option<usize> = if rect_contains(layout.parameters[0], x, y) {
            Some(0)
        } else if rect_contains(layout.parameters[1], x, y) {
            Some(1)
        } else if rect_contains(layout.parameters[2], x, y) {
            Some(2)
        } else if rect_contains(layout.parameters[3], x, y) {
            Some(3)
        } else {
            None
        };
        match index {
            Some(p) => {
                let kind = match hit.context.chain_kind() {
                    Some(kind) => kind,
                    None => return None,
                };
                let count = if self.project.active_track_index < self.project.tracks.len() {
                    match self.selected_timeline_fx_slot(&self.project.tracks[self.project.active_track_index], kind) {
                        Some(slot) => slot.effect.inline_parameter_count(),
                        None => 0,
                    }
                } else {
                    0
                };
                assert(first_parameter_hit(layout, x as int, y as int) == Some(p as int));
                assert(count == match old(self).spec_selected_content(kind) {
                    Some(slot) => slot.effect.spec_param_count() as int,
                    None => 0,
                });
                if p < count {
                    self.page_state.selected_timeline_fx_field = TimelineFxField::ParamPrimary;
                    let ghost before = *self;
                    assert(before == with_field(*old(self), TimelineFxField::ParamPrimary));
                    self.set_selected_timeline_fx_param_window(kind, p);
                    let ghost mid = *self;
                    let cell = layout.parameters[p];
                    let half: i32 = (cell.width() / 2) as i32;
                    let delta: i32 = if x < cell.x + half { -1 } else { 1 };
                    self.adjust_page_item(delta);
                    proof {
                        let pi = p as int;
                        assert(pi as usize == p);
                        let c = hit.layout.parameters[pi];
                        assert(c == cell);
                        assert(delta == (if (x as int) < c.x + c.w / 2 { -1i32 } else { 1i32 }));
                        assert(fx_window_set(with_field(*old(self), TimelineFxField::ParamPrimary), mid, kind, pi as usize));
                        assert(page_item_adjusted(mid, *self, if (x as int) < c.x + c.w / 2 { -1i32 } else { 1i32 }));
                    }
                }
            },
            None => {
                let cycle = was_selected && self.page_state.selected_timeline_fx_field == TimelineFxField::Kind;
                self.page_state.selected_timeline_fx_field = TimelineFxField::Kind;
                assert(*self == with_field(*old(self), TimelineFxField::Kind));
                if cycle {
                    self.adjust_selected_timeline_fx_kind(1);
                }
                assert(first_parameter_hit(layout, x as int, y as int) is None);
            },
        }
        Some(AppControl::Continue)
    }
}

} // verus!
