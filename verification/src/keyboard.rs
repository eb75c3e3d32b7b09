//! Key presses that drive the clip-align panel.

use vstd::prelude::*;
use crate::actions::{AppAction, action_applied};
use crate::align_panel::{selected_clip_or_only, selected_or_only};
use crate::app::{App, AppControl, AppPage, TimelineContext};
use crate::fx_menu::menu_stepped;

verus! {

/// The keys the clip-align panel and the FX menu listen to; every other key is `Other`.
#[derive(Debug, Clone, Copy, PartialEq, Eq, Structural)]
pub enum PanelKey {
    Escape,
    Return,
    Left,
    Right,
    Up,
    Down,
    Home,
    End,
    Q,
    E,
    Other,
}

/// A key going down: which key, whether a shift key is held, and whether it is an
/// auto-repeat of a held key.
#[derive(Debug, Clone, Copy, PartialEq, Eq, Structural)]
pub struct KeyPress {
    pub key: PanelKey,
    pub shift: bool,
    pub repeat: bool,
}

/// The action a key press asks for. While the panel is open: Escape closes it, Return applies
/// it, shift with Left or Right moves between fields, Q (without shift) steps the field back
/// and E steps it forward. Shift+Return on the track timeline opens the panel when the active
/// track has a clip to align. Repeats and other keys ask for nothing.
pub open spec fn clip_align_key_action(a: App, press: KeyPress) -> Option<AppAction> {
    let open = a.clip_align_session is Some;
    if press.repeat {
        None
    } else if open && press.key == PanelKey::Escape {
        Some(AppAction::CloseRecordingClipAlign)
    } else if open && press.key == PanelKey::Return {
        Some(AppAction::ApplyRecordingClipAlign)
    } else if open && press.key == PanelKey::Left && press.shift {
        Some(AppAction::SelectPreviousClipAlignField)
    } else if open && press.key == PanelKey::Right && press.shift {
        Some(AppAction::SelectNextClipAlignField)
    } else if open && press.key == PanelKey::Q && !press.shift {
        Some(AppAction::AdjustClipAlignFieldBackward)
    } else if open && press.key == PanelKey::E {
        Some(AppAction::AdjustClipAlignFieldForward)
    } else if press.key == PanelKey::Return && press.shift
        && a.page_state.current_page == AppPage::Timeline
        && a.page_state.selected_timeline_context == TimelineContext::TrackTimeline
        && a.has_active() && selected_or_only(a.active()) is Some {
        Some(AppAction::OpenSelectedRecordingClipAlign)
    } else {
        None
    }
}

impl App {
    /// Whether the active track has a clip that clip actions can address.
    fn active_track_has_alignable_clip(&self) -> (r: bool)
        requires
            self.wf(),
        ensures
            r == (self.has_active() && selected_or_only(self.active()) is Some),
    {
        let index = self.project.active_track_index;
        if index < self.project.tracks.len() {
            proof {
                assert(self.project.tracks@[index as int].wf());
            }
            selected_clip_or_only(&self.project.tracks[index]).is_some()
        } else {
            false
        }
    }

    /// Handles a key press for the clip-align panel (`None` for an event that is no key
    /// press): carries out the action the press asks for and reports that the app goes on,
    /// or leaves the app as it is and returns `None`.
    pub fn handle_clip_align_keyboard_event(&mut self, press: Option<KeyPress>) -> (r: Option<AppControl>)
        requires
            old(self).wf(),
        ensures
            final(self).wf(),
            match press {
                Some(p) => match clip_align_key_action(*old(self), p) {
                    Some(action) => r == Some(AppControl::Continue) && action_applied(*old(self), *final(self), action),
                    None => r is None && *final(self) == *old(self),
                },
                None => r is None && *final(self) == *old(self),
            },
    {
        let p = match press {
            Some(p) => p,
            None => return None,
        };
        if p.repeat {
            return None;
        }
        let action = if self.clip_align_session.is_some() {
            match p.key {
                PanelKey::Escape => Some(AppAction::CloseRecordingClipAlign),
                PanelKey::Return => Some(AppAction::ApplyRecordingClipAlign),
                PanelKey::Left => if p.shift { Some(AppAction::SelectPreviousClipAlignField) } else { None },
                PanelKey::Right => if p.shift { Some(AppAction::SelectNextClipAlignField) } else { None },
                PanelKey::Q => if !p.shift { Some(AppAction::AdjustClipAlignFieldBackward) } else { None },
                PanelKey::E => Some(AppAction::AdjustClipAlignFieldForward),
                _ => None,
            }
        } else {
            None
        };
        let action = match action {
            Some(a) => Some(a),
            None => if p.key == PanelKey::Return && p.shift
                && self.page_state.current_page == AppPage::Timeline
                && self.page_state.selected_timeline_context == TimelineContext::TrackTimeline
                && self.active_track_has_alignable_clip() {
                Some(AppAction::OpenSelectedRecordingClipAlign)
            } else {
                None
            },
        };
        match action {
            Some(a) => self.apply_action(a),
            None => None,
        }
    }
}

/// What a key press does while an FX menu is open: Escape closes it, Return activates the
/// selected choice, Up, Left or Q step back and Down, Right or E forward, Home and End jump to
/// the first and last choice.
pub enum MenuKeyEffect {
    Close,
    Act(AppAction),
    Jump(i32),
    Nothing,
}

/// The effect of `key` on an open menu.
pub open spec fn menu_key_effect(key: PanelKey) -> MenuKeyEffect {
    match key {
        PanelKey::Escape => MenuKeyEffect::Close,
        PanelKey::Return => MenuKeyEffect::Act(AppAction::ActivatePageItem),
        PanelKey::Up | PanelKey::Left | PanelKey::Q => MenuKeyEffect::Act(AppAction::SelectPreviousPageItem),
        PanelKey::Down | PanelKey::Right | PanelKey::E => MenuKeyEffect::Act(AppAction::SelectNextPageItem),
        PanelKey::Home => MenuKeyEffect::Jump(i32::MIN),
        PanelKey::End => MenuKeyEffect::Jump(i32::MAX),
        PanelKey::Other => MenuKeyEffect::Nothing,
    }
}

impl App {
    /// Handles a key press (`None` for an event that is no key press) while an FX menu may be
    /// open. With a menu open and a press that is no repeat: Escape closes the menu, the
    /// navigation keys carry out their page-item action, Home and End move the selection to
    /// the ends; each of these reports that the app goes on. Anything else changes nothing and
    /// returns `None`.
    pub fn handle_fx_menu_keyboard_event(&mut self, press: Option<KeyPress>) -> (r: Option<AppControl>)
        requires
            old(self).wf(),
        ensures
            final(self).wf(),
            match press {
                Some(p) if !p.repeat && old(self).fx_menu is Some => match menu_key_effect(p.key) {
                    MenuKeyEffect::Close => r == Some(AppControl::Continue) && *final(self) == App { fx_menu: None, ..*old(self) },
                    MenuKeyEffect::Act(action) => r == Some(AppControl::Continue) && action_applied(*old(self), *final(self), action),
                    MenuKeyEffect::Jump(delta) => r == Some(AppControl::Continue) && menu_stepped(*old(self), *final(self), delta as int),
                    MenuKeyEffect::Nothing => r is None && *final(self) == *old(self),
                },
                _ => r is None && *final(self) == *old(self),
            },
    {
        let p = match press {
            Some(p) => p,
            None => return None,
        };
        if p.repeat || self.fx_menu.is_none() {
            return None;
        }
        match p.key {
            PanelKey::Escape => {
                self.fx_menu = None;
                Some(AppControl::Continue)
            },
            PanelKey::Return => self.apply_action(AppAction::ActivatePageItem),
            PanelKey::Up | PanelKey::Left | PanelKey::Q => self.apply_action(AppAction::SelectPreviousPageItem),
            PanelKey::Down | PanelKey::Right | PanelKey::E => self.apply_action(AppAction::SelectNextPageItem),
            PanelKey::Home => {
                self.step_fx_menu(i32::MIN);
                Some(AppControl::Continue)
            },
            PanelKey::End => {
                self.step_fx_menu(i32::MAX);
                Some(AppControl::Continue)
            },
            PanelKey::Other => None,
        }
    }
}

} // verus!
