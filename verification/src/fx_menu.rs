//! The FX choice menu: a pop-up list of the effect kinds (and an empty slot) for one rack
//! slot, its placement on screen, scrolling, pointer rows and committing a choice.

use vstd::prelude::*;
use crate::app::{App, AppPage, PageState, TimelineContext, TimelineFxField, UiDensityPreset};
use crate::fx_rack::{fx_row_set, fx_window_set, same_app_fields};
use crate::geometry::{Rect, rect_contains};
use crate::midi_fx::{FX_KIND_COUNT, MidiFx, MidiFxKind, MidiFxSlot};
use crate::project::{MidiFxChainKind, Track};
use crate::track_strip::sat_sub;

verus! {

/// An open FX menu on slot `slot` of the `context` rack of track `track`.
#[derive(Debug, Clone)]
pub struct FxMenu {
    pub track: usize,
    pub context: TimelineContext,
    pub slot: usize,
    /// What the slot held when the menu opened.
    pub original: Option<crate::midi_fx::MidiFxSlot>,
    /// The choices, in menu order.
    pub choices: Vec<Option<crate::midi_fx::MidiFxSlot>>,
    pub selected: usize,
    /// The choice matching the slot when the menu opened.
    pub current: usize,
    /// The first choice shown.
    pub scroll: usize,
    /// Where the menu was asked for.
    pub anchor_x: i32,
    pub anchor_y: i32,
}

/// Height of a menu row: taller in the touch density.
pub open spec fn menu_row_height(density: UiDensityPreset) -> int {
    if density == UiDensityPreset::Touch { 26 } else { 20 }
}

/// Rows the menu shows: as many as fit under 56 pixels of chrome in the viewport height,
/// at least one and at most the choices.
pub open spec fn menu_rows(viewport_h: int, row_height: int, choices: int) -> int {
    let fit = sat_sub(viewport_h, 56) / row_height;
    let at_least_one = if fit >= 1 { fit } else { 1 };
    if at_least_one <= choices { at_least_one } else { choices }
}

/// `value` held within `[lo, hi]`.
pub open spec fn clamp_between(value: int, lo: int, hi: int) -> int {
    if value < lo { lo } else if value > hi { hi } else { value }
}

/// Width of the menu: 210 pixels (wider than every effect name with its margins), held
/// within the viewport less eight pixels on each side.
pub open spec fn menu_width(viewport_w: int) -> int {
    let room = if sat_sub(viewport_w, 16) >= 1 { sat_sub(viewport_w, 16) } else { 1 };
    if 210 <= room { 210 } else { room }
}

/// Where the menu of `app` is drawn, its row height and the rows it shows: `rows` rows under
/// a 40-pixel frame, anchored at the point it was asked for and kept eight pixels inside the
/// viewport where it fits.
pub open spec fn spec_menu_geometry(app: App) -> Option<(Rect, u32, usize)> {
    match app.fx_menu {
        None => None,
        Some(menu) => {
            let (vw, vh) = app.viewport_size;
            let rh = menu_row_height(app.ui_density_preset);
            let rows = menu_rows(vh as int, rh, menu.choices@.len() as int);
            let w = menu_width(vw as int);
            let room_h = if sat_sub(vh as int, 16) >= 1 { sat_sub(vh as int, 16) } else { 1 };
            let h = if rows * rh + 40 <= room_h { rows * rh + 40 } else { room_h };
            let lo_x = if 8 <= vw - w { 8 } else { vw - w };
            let hi_x = if vw - w - 8 >= 8 { vw - w - 8 } else { 8 };
            let lo_y = if 8 <= vh - h { 8 } else { vh - h };
            let hi_y = if vh - h - 8 >= 8 { vh - h - 8 } else { 8 };
            Some((
                Rect::made(clamp_between(menu.anchor_x as int, lo_x, hi_x), clamp_between(menu.anchor_y as int, lo_y, hi_y), w, h),
                rh as u32,
                rows as usize,
            ))
        },
    }
}

/// Selection and first row shown after moving selection `selected` by `delta` among `n`
/// choices with `rows` rows shown: the selection stays among the choices, and the first row
/// shown follows it so that it stays in view.
pub open spec fn menu_moved(selected: int, scroll: int, n: int, delta: int, rows: int) -> (int, int) {
    let sel = clamp_between(selected + delta, 0, n - 1);
    let s1 = if sel < scroll { sel } else { scroll };
    let s2 = if sel >= s1 + rows { sel + 1 - rows } else { s1 };
    let top = if s2 <= sat_sub(n, rows) { s2 } else { sat_sub(n, rows) };
    (sel, top)
}

/// Computes `menu_moved`.
fn moved_selection(selected: usize, scroll: usize, n: usize, delta: i32, rows: usize) -> (r: (usize, usize))
    requires
        1 <= n < 0x1_0000,
        1 <= rows <= n,
        selected < n,
        scroll <= n,
    ensures
        (r.0 as int, r.1 as int) == menu_moved(selected as int, scroll as int, n as int, delta as int, rows as int),
        r.1 <= r.0 < r.1 + rows,
        r.1 + rows <= n,
{
    let wanted: i64 = selected as i64 + delta as i64;
    let sel: usize = if wanted < 0 { 0 } else if wanted > n as i64 - 1 { n - 1 } else { wanted as usize };
    let mut top = scroll;
    if sel < top {
        top = sel;
    }
    if sel >= top + rows {
        top = sel + 1 - rows;
    }
    let max_top = n - rows;
    if top > max_top {
        top = max_top;
    }
    (sel, top)
}

/// Effect of `move_fx_menu_selection`: the selection of the open menu moves by `delta` as
/// `menu_moved` says, and stays in view; nothing else changes.
pub open spec fn menu_selection_moved(a: App, b: App, delta: int) -> bool {
    match (a.fx_menu, spec_menu_geometry(a)) {
        (Some(menu), Some((_, _, rows))) => {
            let (selected, scroll) = menu_moved(menu.selected as int, menu.scroll as int, menu.choices@.len() as int, delta, rows as int);
            &&& b == App { fx_menu: Some(FxMenu { selected: selected as usize, scroll: scroll as usize, ..menu }), ..a }
            &&& scroll <= selected < scroll + rows
            &&& scroll + rows <= menu.choices@.len()
        },
        _ => b == a,
    }
}

/// Effect of activating the page item while a menu is open: a well-formed menu commits its
/// choice; any other is closed.
pub open spec fn menu_activated(a: App, b: App) -> bool {
    match a.fx_menu {
        Some(m) => if menu_wf(m) { menu_committed(a, b) } else { b == App { fx_menu: None, ..a } },
        None => b == a,
    }
}

/// Effect of stepping the page item while a menu is open: a well-formed menu moves its
/// selection; any other stays as it is.
pub open spec fn menu_stepped(a: App, b: App, delta: int) -> bool {
    match a.fx_menu {
        Some(m) => if menu_wf(m) { menu_selection_moved(a, b, delta) } else { b == a },
        None => b == a,
    }
}

/// Whether `menu` is well formed.
pub fn menu_is_wf(menu: &FxMenu) -> (r: bool)
    ensures
        r == menu_wf(*menu),
{
    menu.choices.len() >= 1 && menu.choices.len() < 0x1_0000 && menu.selected < menu.choices.len()
        && menu.scroll <= menu.choices.len()
}

/// The menu has at least one choice and its selection is one of them.
pub open spec fn menu_wf(menu: FxMenu) -> bool {
    &&& menu.choices@.len() >= 1
    &&& menu.choices@.len() < 0x1_0000
    &&& menu.selected < menu.choices@.len()
    &&& menu.scroll <= menu.choices@.len()
}

impl App {
    /// Activates the page item of an open menu: commits a well-formed menu, closes any other.
    pub fn activate_fx_menu(&mut self)
        requires
            old(self).wf(),
        ensures
            final(self).wf(),
            menu_activated(*old(self), *final(self)),
    {
        let ok = match &self.fx_menu {
            Some(m) => menu_is_wf(m),
            None => return,
        };
        if ok {
            self.commit_fx_menu_choice();
        } else {
            self.fx_menu = None;
        }
    }

    /// Steps the selection of an open, well-formed menu by `delta`.
    pub fn step_fx_menu(&mut self, delta: i32)
        requires
            old(self).wf(),
        ensures
            final(self).wf(),
            menu_stepped(*old(self), *final(self), delta as int),
    {
        let ok = match &self.fx_menu {
            Some(m) => menu_is_wf(m),
            None => return,
        };
        if ok {
            self.move_fx_menu_selection(delta);
        }
    }

    /// Whether an FX menu may open: on the timeline page, with no overlay and no clip-align
    /// panel open.
    pub fn fx_menu_allowed(&self) -> (r: bool)
        ensures
            r == (self.page_state.current_page == AppPage::Timeline && self.overlay_state.active is None
                && self.clip_align_session is None),
    {
        self.page_state.current_page == AppPage::Timeline && self.overlay_state.active.is_none()
            && self.clip_align_session.is_none()
    }

    /// Where the open menu is drawn, its row height and the rows it shows.
    pub fn fx_menu_geometry(&self) -> (r: Option<(Rect, u32, usize)>)
        requires
            self.fx_menu matches Some(m) ==> menu_wf(m),
        ensures
            r == spec_menu_geometry(*self),
    {
        let menu = match &self.fx_menu {
            Some(menu) => menu,
            None => return None,
        };
        let vw = self.viewport_size.0;
        let vh = self.viewport_size.1;
        let rh: u32 = if self.ui_density_preset == UiDensityPreset::Touch { 26 } else { 20 };
        let fit: u32 = (if vh >= 56 { vh - 56 } else { 0 }) / rh;
        let at_least_one: u32 = if fit >= 1 { fit } else { 1 };
        let n = menu.choices.len();
        let rows: usize = if (at_least_one as usize) <= n { at_least_one as usize } else { n };
        let room_w: u32 = if vw >= 17 { vw - 16 } else { 1 };
        let w: u32 = if 210 <= room_w { 210 } else { room_w };
        let room_h: u32 = if vh >= 17 { vh - 16 } else { 1 };
        assert(rows as u64 * rh as u64 <= 0x10000 * 26) by (nonlinear_arith)
            requires
                rows <= 0x10000,
                rh <= 26;
        let tall: u64 = rows as u64 * rh as u64 + 40;
        let h: u32 = if tall <= room_h as u64 { tall as u32 } else { room_h };
        let vw64 = vw as i64;
        let vh64 = vh as i64;
        let lo_x: i64 = if 8 <= vw64 - w as i64 { 8 } else { vw64 - w as i64 };
        let hi_x: i64 = if vw64 - w as i64 - 8 >= 8 { vw64 - w as i64 - 8 } else { 8 };
        let lo_y: i64 = if 8 <= vh64 - h as i64 { 8 } else { vh64 - h as i64 };
        let hi_y: i64 = if vh64 - h as i64 - 8 >= 8 { vh64 - h as i64 - 8 } else { 8 };
        let ax = menu.anchor_x as i64;
        let ay = menu.anchor_y as i64;
        let x: i64 = if ax < lo_x { lo_x } else if ax > hi_x { hi_x } else { ax };
        let y: i64 = if ay < lo_y { lo_y } else if ay > hi_y { hi_y } else { ay };
        Some((Rect::new(x as i32, y as i32, w, h), rh, rows))
    }

    /// Moves the menu selection by `delta`, keeping it among the choices and in view.
    pub fn move_fx_menu_selection(&mut self, delta: i32)
        requires
            old(self).fx_menu matches Some(m) ==> menu_wf(m),
        ensures
            final(self).fx_menu matches Some(m) ==> menu_wf(m),
            menu_selection_moved(*old(self), *final(self), delta as int),
    {
        let rows = match self.fx_menu_geometry() {
            Some((_, _, rows)) => rows,
            None => return,
        };
        let menu = match &self.fx_menu {
            Some(menu) => menu,
            None => return,
        };
        let (selected, scroll) = moved_selection(menu.selected, menu.scroll, menu.choices.len(), delta, rows);
        match &mut self.fx_menu {
            Some(m) => {
                m.selected = selected;
                m.scroll = scroll;
            },
            None => {},
        }
    }

    /// The choice under the point, if the point is on a row of the open menu.
    pub fn fx_menu_row_at(&self, x: i32, y: i32) -> (r: Option<usize>)
        requires
            self.fx_menu matches Some(m) ==> menu_wf(m),
        ensures
            r == (match (self.fx_menu, spec_menu_geometry(*self)) {
                (Some(menu), Some((rect, height, rows))) => {
                    if !rect.contains(x as int, y as int) || y < rect.y + 22 {
                        None
                    } else {
                        let row = (y - rect.y - 22) / (height as int);
                        if row < rows && row + menu.scroll < menu.choices@.len() { Some((row + menu.scroll) as usize) } else { None }
                    }
                },
                _ => None,
            }),
    {
        let (rect, height, rows) = match self.fx_menu_geometry() {
            Some(g) => g,
            None => return None,
        };
        let menu = match &self.fx_menu {
            Some(menu) => menu,
            None => return None,
        };
        if !rect_contains(rect, x, y) || (y as i64) < rect.y as i64 + 22 {
            return None;
        }
        let row: usize = ((y as i64 - rect.y as i64 - 22) / height as i64) as usize;
        if row < rows && row + menu.scroll < menu.choices.len() {
            Some(row + menu.scroll)
        } else {
            None
        }
    }
}

/// The app with slot `slot` of rack `kind` of track `t` holding `value`; nothing else differs.
pub open spec fn slot_replaced(a: App, b: App, t: int, kind: MidiFxChainKind, slot: int, value: Option<MidiFxSlot>) -> bool {
    let before = a.project.tracks@[t];
    let after = b.project.tracks@[t];
    &&& same_app_fields(a, b)
    &&& b.page_state == a.page_state
    &&& b.project.active_track_index == a.project.active_track_index
    &&& b.project.transport == a.project.transport
    &&& b.project.loop_region == a.project.loop_region
    &&& b.project.tracks@.len() == a.project.tracks@.len()
    &&& forall|i: int| 0 <= i < a.project.tracks@.len() && i != t ==> #[trigger] b.project.tracks@[i] == a.project.tracks@[i]
    &&& after == Track { midi_fx: after.midi_fx, ..before }
    &&& after.midi_fx.chain(kind) == before.midi_fx.chain(kind).update(slot, value)
    &&& after.midi_fx.windows(kind) == before.midi_fx.windows(kind)
    &&& after.midi_fx.stored_row(kind) == before.midi_fx.stored_row(kind)
    &&& after.midi_fx.same_except(before.midi_fx, kind)
}

/// Effect of `commit_fx_menu_choice`: the menu closes. When its rack slot still holds what it
/// held when the menu opened, and the selected choice differs from it, the slot takes the
/// choice and the parameter window of the selected slot of that rack on the active track goes
/// back to the start; a menu whose slot has changed meanwhile is discarded.
pub open spec fn menu_committed(a: App, b: App) -> bool {
    match a.fx_menu {
        None => b == a,
        Some(m) => {
            let closed = App { fx_menu: None, ..a };
            let choice = m.choices@[m.selected as int];
            match m.context.spec_chain_kind() {
                None => b == closed,
                Some(kind) => if m.track >= a.project.tracks@.len()
                    || m.slot >= a.project.tracks@[m.track as int].midi_fx.chain(kind).len()
                    || a.project.tracks@[m.track as int].midi_fx.chain(kind)[m.slot as int] != m.original
                    || a.project.tracks@[m.track as int].midi_fx.chain(kind)[m.slot as int] == choice {
                    b == closed
                } else {
                    exists|mid: App| #[trigger] slot_replaced(closed, mid, m.track as int, kind, m.slot as int, choice)
                        && fx_window_set(mid, b, kind, 0)
                },
            }
        },
    }
}

impl App {
    /// Puts the selected choice of the open menu into its slot, unless the slot changed since
    /// the menu opened, and closes the menu.
    pub fn commit_fx_menu_choice(&mut self)
        requires
            old(self).wf(),
            old(self).fx_menu matches Some(m) ==> menu_wf(m),
        ensures
            final(self).wf(),
            final(self).fx_menu is None,
            menu_committed(*old(self), *final(self)),
    {
        let menu = match self.fx_menu.take() {
            Some(menu) => menu,
            None => return,
        };
        let choice = menu.choices[menu.selected];
        let kind = match menu.context {
            TimelineContext::InputFx => MidiFxChainKind::Input,
            TimelineContext::OutputFx => MidiFxChainKind::Output,
            TimelineContext::TrackTimeline => return,
        };
        if menu.track >= self.project.tracks.len() {
            return;
        }
        if menu.slot >= self.project.tracks[menu.track].midi_fx.chain_len(kind) {
            return;
        }
        let current = self.project.tracks[menu.track].midi_fx.slot(kind, menu.slot);
        if current != menu.original || current == choice {
            return;
        }
        let ghost closed = *self;
        let t = menu.track;
        proof {
            assert(self.project.tracks@[t as int].wf());
        }
        self.project.tracks[t].midi_fx.set_slot(kind, menu.slot, choice);
        proof {
            assert forall|i: int| 0 <= i < self.project.tracks@.len() implies (#[trigger] self.project.tracks@[i]).wf() by {
                assert(closed.project.tracks@[i].wf());
            }
        }
        let ghost mid = *self;
        assert(slot_replaced(closed, mid, t as int, kind, menu.slot as int, choice));
        self.set_selected_timeline_fx_param_window(kind, 0);
    }
}

/// Choice `i` of the effect-type menu for a slot holding `original`: the slot itself for its
/// own kind, else the default effect of kind `i`, enabled as the slot is (or enabled for an
/// empty slot).
pub open spec fn kind_choice(original: Option<MidiFxSlot>, i: int) -> Option<MidiFxSlot> {
    let kind = MidiFxKind::spec_from_index(i as nat);
    match original {
        Some(s) => if s.effect.spec_kind() == kind {
            Some(s)
        } else {
            Some(MidiFxSlot { enabled: s.enabled, effect: MidiFx::spec_default_for_kind(kind) })
        },
        None => Some(MidiFxSlot { enabled: true, effect: MidiFx::spec_default_for_kind(kind) }),
    }
}

/// The effect-type menu: every effect kind in cycle order, then the empty slot.
pub open spec fn kind_choices(original: Option<MidiFxSlot>) -> Seq<Option<MidiFxSlot>> {
    Seq::new(FX_KIND_COUNT as nat, |i: int| kind_choice(original, i)).push(None)
}

/// The position of the first choice, from `k` on, equal to `original`; 0 when none is.
pub open spec fn first_match(choices: Seq<Option<MidiFxSlot>>, original: Option<MidiFxSlot>, k: int) -> int
    decreases choices.len() - k,
{
    if k < 0 || k >= choices.len() {
        0
    } else if choices[k] == original {
        k
    } else {
        first_match(choices, original, k + 1)
    }
}

/// Effect of `open_fx_menu`: for a slot of an FX rack of an existing track, the track becomes
/// active, the rack and the slot's row are selected with the kind field, and the effect-type
/// menu opens at the anchor with the slot's current choice selected and in view.
pub open spec fn menu_opened(a: App, b: App, track: usize, context: TimelineContext, slot: usize, anchor_x: i32, anchor_y: i32) -> bool {
    match context.spec_chain_kind() {
        None => b == a,
        Some(kind) => if track >= a.project.tracks@.len() || slot >= a.project.tracks@[track as int].midi_fx.chain(kind).len() {
            b == a
        } else {
            let original = a.project.tracks@[track as int].midi_fx.chain(kind)[slot as int];
            let choices = kind_choices(original);
            let current = first_match(choices, original, 0);
            exists|mid: App| {
                &&& #[trigger] fx_row_set(crate::pointer::with_active_context(a, track, context), mid, kind, slot)
                &&& b.fx_menu matches Some(m) && {
                    &&& m.track == track && m.context == context && m.slot == slot
                    &&& m.original == original
                    &&& m.choices@ == choices
                    &&& m.current == current
                    &&& m.anchor_x == anchor_x && m.anchor_y == anchor_y
                    &&& spec_menu_geometry(b) matches Some((_, _, rows))
                        && (m.selected as int, m.scroll as int) == menu_moved(current, 0, choices.len() as int, 0, rows as int)
                }
                &&& b == App {
                    fx_menu: b.fx_menu,
                    page_state: PageState { selected_timeline_fx_field: TimelineFxField::Kind, ..mid.page_state },
                    ..mid
                }
            }
        },
    }
}

/// Builds the effect-type menu for a slot holding `original`.
fn kind_menu_choices(original: Option<MidiFxSlot>) -> (r: Vec<Option<MidiFxSlot>>)
    ensures
        r@ == kind_choices(original),
{
    let mut r: Vec<Option<MidiFxSlot>> = Vec::new();
    let mut i: usize = 0;
    while i < FX_KIND_COUNT
        invariant
            i <= FX_KIND_COUNT,
            r@ == Seq::new(i as nat, |j: int| kind_choice(original, j)),
        decreases FX_KIND_COUNT - i,
    {
        let kind = MidiFxKind::from_index(i);
        let choice = match original {
            Some(s) => if s.effect.kind() == kind {
                Some(s)
            } else {
                Some(MidiFxSlot { enabled: s.enabled, effect: MidiFx::default_for_kind(kind) })
            },
            None => Some(MidiFxSlot { enabled: true, effect: MidiFx::default_for_kind(kind) }),
        };
        r.push(choice);
        assert(r@ =~= Seq::new(i as nat + 1, |j: int| kind_choice(original, j)));
        i = i + 1;
    }
    r.push(None);
    r
}

/// The position of the first choice equal to `original`, or 0.
fn first_choice_match(choices: &Vec<Option<MidiFxSlot>>, original: Option<MidiFxSlot>) -> (r: usize)
    ensures
        r == first_match(choices@, original, 0),
        choices@.len() > 0 ==> r < choices@.len(),
{
    let mut k: usize = 0;
    while k < choices.len()
        invariant
            k <= choices@.len(),
            first_match(choices@, original, 0) == first_match(choices@, original, k as int),
        decreases choices@.len() - k,
    {
        if choices[k] == original {
            return k;
        }
        k = k + 1;
    }
    0
}

impl App {
    /// Opens the effect-type menu on slot `slot` of the `context` rack of track `track`.
    pub fn open_fx_menu(&mut self, track: usize, context: TimelineContext, slot: usize, anchor_x: i32, anchor_y: i32)
        requires
            old(self).wf(),
            old(self).fx_menu matches Some(m) ==> menu_wf(m),
        ensures
            final(self).wf(),
            final(self).fx_menu matches Some(m) ==> menu_wf(m),
            menu_opened(*old(self), *final(self), track, context, slot, anchor_x, anchor_y),
    {
        let kind = match context {
            TimelineContext::InputFx => MidiFxChainKind::Input,
            TimelineContext::OutputFx => MidiFxChainKind::Output,
            TimelineContext::TrackTimeline => return,
        };
        if track >= self.project.tracks.len() {
            return;
        }
        if slot >= self.project.tracks[track].midi_fx.chain_len(kind) {
            return;
        }
        let original = self.project.tracks[track].midi_fx.slot(kind, slot);
        let choices = kind_menu_choices(original);
        let current = first_choice_match(&choices, original);
        self.project.active_track_index = track;
        self.page_state.selected_timeline_context = context;
        let ghost pre = *self;
        assert(pre == crate::pointer::with_active_context(*old(self), track, context));
        self.set_selected_timeline_fx_row(kind, slot);
        let ghost mid = *self;
        self.page_state.selected_timeline_fx_field = TimelineFxField::Kind;
        self.fx_menu = Some(FxMenu {
            track,
            context,
            slot,
            original,
            choices,
            selected: current,
            current,
            scroll: 0,
            anchor_x,
            anchor_y,
        });
        self.move_fx_menu_selection(0);
    }
}

} // verus!
