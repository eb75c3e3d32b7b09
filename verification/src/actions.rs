//! The actions that keys, pointer hits and mapped MIDI controls send, and how the timeline
//! model carries them out.
use vstd::prelude::*;
use crate::align_panel::{clip_align_done, clip_align_field_adjusted, clip_align_field_selected, clip_align_opened, only_panel_changed};
use crate::app::{App, AppControl, AppPage};
use crate::fx_menu::{menu_activated, menu_stepped};
use crate::fx_rack::{
    fx_added, fx_context_adjusted, fx_deleted, fx_enabled_toggled, fx_field_switched, fx_kind_adjusted, fx_moved,
    fx_row_selected, same_app_fields, unchanged,
};
use crate::project::{Track, Transport, clip_deleted, next_clip_selected, previous_clip_selected};
use crate::track_actions::{
    TrackSwitch, active_clip_action, clip_or_fx_mute_toggled, clip_selected, context_selected, playback_toggled,
    recording_toggled, switch_toggled, transport_replaced,
};

verus! {

/// A request from a key, a pointer hit or a mapped control.
#[derive(Debug, Clone, Copy, PartialEq, Eq, Structural)]
pub enum AppAction {
    TogglePlayback,
    ToggleRecording,
    ToggleLoopRecordingExtension,
    ToggleSongLoop,
    CycleHarmonyRoot,
    DecreaseTempo,
    IncreaseTempo,
    HalfTempo,
    DoubleTempo,
    TapTempo,
    SelectTrack(usize),
    ToggleFocusedTrackView,
    ToggleCurrentTrackArm,
    ToggleCurrentTrackMute,
    ToggleCurrentTrackSolo,
    ToggleCurrentTrackLoop,
    ToggleCurrentTrackPassthrough,
    ToggleCurrentTrackRecordingView,
    SelectPreviousRecordingClip,
    SelectNextRecordingClip,
    SelectRecordingClip(u64),
    ToggleSelectedRecordingClipMute,
    DeleteSelectedRecordingClip,
    OpenSelectedRecordingClipAlign,
    CloseRecordingClipAlign,
    ApplyRecordingClipAlign,
    SelectPreviousClipAlignField,
    SelectNextClipAlignField,
    AdjustClipAlignFieldBackward,
    AdjustClipAlignFieldForward,
    SelectPreviousPageItem,
    SelectNextPageItem,
    AdjustPageItemBackward,
    AdjustPageItemForward,
    ActivatePageItem,
    ReverseActivatePageItem,
    SelectPreviousTimelineContext,
    SelectNextTimelineContext,
    CycleSelectedTimelineFxKind,
    AddSelectedTimelineFx,
    DeleteSelectedTimelineFx,
    ToggleSelectedTimelineFx,
    MoveSelectedTimelineFxUp,
    MoveSelectedTimelineFxDown,
}

/// Actions this library does not carry out: the tempo steps and tap tempo, which act on the
/// shared Link session and the wall clock. `apply_action` answers them with `None` and leaves
/// the app as it is.
pub open spec fn host_handled(action: AppAction) -> bool {
    match action {
        AppAction::DecreaseTempo | AppAction::IncreaseTempo | AppAction::HalfTempo
            | AppAction::DoubleTempo | AppAction::TapTempo => true,
        _ => false,
    }
}

/// The timeline page is shown and its item actions apply.
pub open spec fn on_timeline(a: App) -> bool {
    a.page_state.current_page == AppPage::Timeline
}

/// Effect of `select_page_item`: on the timeline with an FX context, the FX row (or, while
/// parameters are edited, the parameter window) moves; elsewhere nothing changes.
pub open spec fn page_item_selected(a: App, b: App, delta: i32) -> bool {
    if on_timeline(a) && a.page_state.selected_timeline_context.spec_chain_kind() is Some {
        fx_row_selected(a, b, delta)
    } else {
        unchanged(a, b)
    }
}

/// Effect of `adjust_page_item`: on the timeline with an FX context, the field action of the
/// selected FX slot; elsewhere nothing changes.
pub open spec fn page_item_adjusted(a: App, b: App, delta: i32) -> bool {
    if on_timeline(a) && a.page_state.selected_timeline_context.spec_chain_kind() is Some {
        fx_context_adjusted(a, b, delta)
    } else {
        unchanged(a, b)
    }
}

/// Effect of `activate_page_item` and `reverse_activate_page_item`: on the timeline the FX
/// edit focus switches between kind and parameters.
pub open spec fn page_item_activated(a: App, b: App) -> bool {
    if on_timeline(a) { fx_field_switched(a, b) } else { unchanged(a, b) }
}

/// What carrying out `action` does to the app.
pub open spec fn action_applied(a: App, b: App, action: AppAction) -> bool {
    match action {
        AppAction::TogglePlayback => playback_toggled(a, b),
        AppAction::ToggleRecording => recording_toggled(a, b),
        AppAction::ToggleLoopRecordingExtension => transport_replaced(a, b, Transport {
            loop_recording_extends_clip: !a.project.transport.loop_recording_extends_clip,
            ..a.project.transport
        }),
        AppAction::ToggleSongLoop => transport_replaced(a, b, Transport {
            loop_enabled: !a.project.transport.loop_enabled,
            ..a.project.transport
        }),
        AppAction::CycleHarmonyRoot => transport_replaced(a, b, Transport {
            harmony_root: ((a.project.transport.harmony_root + 1) % 12) as u8,
            ..a.project.transport
        }),
        AppAction::SelectTrack(index) => {
            &&& same_app_fields(a, b)
            &&& b.page_state == a.page_state
            &&& b.project.tracks@ == a.project.tracks@
            &&& b.project.transport == a.project.transport
            &&& b.project.loop_region == a.project.loop_region
            &&& b.project.active_track_index == (if index < a.project.tracks@.len() { index } else { a.project.active_track_index })
        },
        AppAction::ToggleFocusedTrackView => {
            &&& b.focused_track_view == !a.focused_track_view
            &&& b.project == a.project
            &&& b.page_state == a.page_state
            &&& b.overlay_state == a.overlay_state
            &&& b.clip_align_session == a.clip_align_session
        },
        AppAction::ToggleCurrentTrackArm => switch_toggled(a, b, TrackSwitch::Armed),
        AppAction::ToggleCurrentTrackMute => switch_toggled(a, b, TrackSwitch::Muted),
        AppAction::ToggleCurrentTrackSolo => switch_toggled(a, b, TrackSwitch::Soloed),
        AppAction::ToggleCurrentTrackLoop => switch_toggled(a, b, TrackSwitch::LoopEnabled),
        AppAction::ToggleCurrentTrackPassthrough => switch_toggled(a, b, TrackSwitch::Passthrough),
        AppAction::ToggleCurrentTrackRecordingView => if a.has_active() {
            active_track_replaced_view(a, b)
        } else {
            unchanged(a, b)
        },
        AppAction::SelectPreviousRecordingClip => active_clip_action(a, b, |x: Track, y: Track| previous_clip_selected(x, y)),
        AppAction::SelectNextRecordingClip => active_clip_action(a, b, |x: Track, y: Track| next_clip_selected(x, y)),
        AppAction::SelectRecordingClip(id) => clip_selected(a, b, id),
        AppAction::ToggleSelectedRecordingClipMute => clip_or_fx_mute_toggled(a, b),
        AppAction::DeleteSelectedRecordingClip => active_clip_action(a, b, |x: Track, y: Track| clip_deleted(x, y)),
        AppAction::OpenSelectedRecordingClipAlign => clip_align_opened(a, b),
        AppAction::CloseRecordingClipAlign => only_panel_changed(a, b) && b.clip_align_session is None,
        AppAction::ApplyRecordingClipAlign => clip_align_done(a, b),
        AppAction::SelectPreviousClipAlignField => clip_align_field_selected(a, b, false),
        AppAction::SelectNextClipAlignField => clip_align_field_selected(a, b, true),
        AppAction::AdjustClipAlignFieldBackward => clip_align_field_adjusted(a, b, -1i32),
        AppAction::AdjustClipAlignFieldForward => clip_align_field_adjusted(a, b, 1i32),
        AppAction::SelectPreviousPageItem => if a.fx_menu is Some { menu_stepped(a, b, -1) } else { page_item_selected(a, b, -1i32) },
        AppAction::SelectNextPageItem => if a.fx_menu is Some { menu_stepped(a, b, 1) } else { page_item_selected(a, b, 1i32) },
        AppAction::AdjustPageItemBackward => page_item_adjusted(a, b, -1i32),
        AppAction::AdjustPageItemForward => page_item_adjusted(a, b, 1i32),
        AppAction::ActivatePageItem => if a.fx_menu is Some { menu_activated(a, b) } else { page_item_activated(a, b) },
        AppAction::ReverseActivatePageItem => page_item_activated(a, b),
        AppAction::SelectPreviousTimelineContext => context_selected(a, b, false),
        AppAction::SelectNextTimelineContext => context_selected(a, b, true),
        AppAction::CycleSelectedTimelineFxKind => fx_kind_adjusted(a, b, 1i32),
        AppAction::AddSelectedTimelineFx => fx_added(a, b),
        AppAction::DeleteSelectedTimelineFx => fx_deleted(a, b),
        AppAction::ToggleSelectedTimelineFx => fx_enabled_toggled(a, b),
        AppAction::MoveSelectedTimelineFxUp => fx_moved(a, b, -1i32),
        AppAction::MoveSelectedTimelineFxDown => fx_moved(a, b, 1i32),
        _ => unchanged(a, b),
    }
}

/// The active track switches between overlaid and stacked clips.
pub open spec fn active_track_replaced_view(a: App, b: App) -> bool {
    crate::track_actions::active_track_replaced(a, b, Track {
        recording_view: if a.active().recording_view == crate::project::RecordingView::Overlay {
            crate::project::RecordingView::Stacked
        } else {
            crate::project::RecordingView::Overlay
        },
        ..a.active()
    })
}

impl App {
    /// Up/Down: selects the next or previous FX row of the timeline.
    pub fn select_page_item(&mut self, delta: i32)
        requires
            old(self).wf(),
        ensures
            final(self).wf(),
            page_item_selected(*old(self), *final(self), delta),
    {
        if self.page_state.current_page == AppPage::Timeline && self.page_state.selected_timeline_context.chain_kind().is_some() {
            self.select_timeline_fx_row(delta);
        }
    }

    /// Q/E: applies the selected FX field action of the timeline.
    pub fn adjust_page_item(&mut self, delta: i32)
        requires
            old(self).wf(),
        ensures
            final(self).wf(),
            page_item_adjusted(*old(self), *final(self), delta),
    {
        if self.page_state.current_page == AppPage::Timeline && self.page_state.selected_timeline_context.chain_kind().is_some() {
            self.adjust_timeline_context(delta);
        }
    }

    /// Enter: switches the FX edit focus between kind and parameters.
    pub fn activate_page_item(&mut self)
        ensures
            page_item_activated(*old(self), *final(self)),
    {
        if self.page_state.current_page == AppPage::Timeline {
            self.activate_timeline_context_item();
        }
    }

    /// Shift+Enter: switches the FX edit focus back.
    pub fn reverse_activate_page_item(&mut self)
        ensures
            page_item_activated(*old(self), *final(self)),
    {
        if self.page_state.current_page == AppPage::Timeline {
            self.reverse_activate_timeline_context_item();
        }
    }

    /// Carries out an action. Returns `None` for the actions the host carries out itself.
    pub fn apply_action(&mut self, action: AppAction) -> (r: Option<AppControl>)
        requires
            old(self).wf(),
        ensures
            final(self).wf(),
            host_handled(action) ==> r is None && unchanged(*old(self), *final(self)),
            !host_handled(action) ==> r == Some(AppControl::Continue) && action_applied(*old(self), *final(self), action),
    {
        match action {
            AppAction::DecreaseTempo | AppAction::IncreaseTempo | AppAction::HalfTempo
                | AppAction::DoubleTempo | AppAction::TapTempo => return None,
            AppAction::TogglePlayback => self.toggle_playback(),
            AppAction::ToggleRecording => self.toggle_recording(),
            AppAction::ToggleLoopRecordingExtension => {
                self.project.transport.loop_recording_extends_clip = !self.project.transport.loop_recording_extends_clip;
            },
            AppAction::ToggleSongLoop => {
                self.project.transport.loop_enabled = !self.project.transport.loop_enabled;
            },
            AppAction::CycleHarmonyRoot => {
                self.project.transport.harmony_root = ((self.project.transport.harmony_root as u16 + 1) % 12) as u8;
            },
            AppAction::SelectTrack(index) => self.project.select_track(index),
            AppAction::ToggleFocusedTrackView => {
                self.focused_track_view = !self.focused_track_view;
            },
            AppAction::ToggleCurrentTrackArm => self.toggle_current_track_switch(TrackSwitch::Armed),
            AppAction::ToggleCurrentTrackMute => self.toggle_current_track_switch(TrackSwitch::Muted),
            AppAction::ToggleCurrentTrackSolo => self.toggle_current_track_switch(TrackSwitch::Soloed),
            AppAction::ToggleCurrentTrackLoop => self.toggle_current_track_switch(TrackSwitch::LoopEnabled),
            AppAction::ToggleCurrentTrackPassthrough => self.toggle_current_track_switch(TrackSwitch::Passthrough),
            AppAction::ToggleCurrentTrackRecordingView => self.toggle_current_track_recording_view(),
            AppAction::SelectPreviousRecordingClip => self.select_previous_recording_clip(),
            AppAction::SelectNextRecordingClip => self.select_next_recording_clip(),
            AppAction::SelectRecordingClip(id) => self.select_recording_clip(id),
            AppAction::ToggleSelectedRecordingClipMute => self.toggle_selected_recording_clip_mute(),
            AppAction::DeleteSelectedRecordingClip => self.delete_selected_recording_clip(),
            AppAction::OpenSelectedRecordingClipAlign => self.open_selected_recording_clip_align(),
            AppAction::CloseRecordingClipAlign => self.close_clip_align(),
            AppAction::ApplyRecordingClipAlign => self.apply_clip_align(),
            AppAction::SelectPreviousClipAlignField => self.select_clip_align_field(false),
            AppAction::SelectNextClipAlignField => self.select_clip_align_field(true),
            AppAction::AdjustClipAlignFieldBackward => self.adjust_clip_align_field(-1),
            AppAction::AdjustClipAlignFieldForward => self.adjust_clip_align_field(1),
            AppAction::SelectPreviousPageItem => if self.fx_menu.is_some() { self.step_fx_menu(-1) } else { self.select_page_item(-1) },
            AppAction::SelectNextPageItem => if self.fx_menu.is_some() { self.step_fx_menu(1) } else { self.select_page_item(1) },
            AppAction::AdjustPageItemBackward => self.adjust_page_item(-1),
            AppAction::AdjustPageItemForward => self.adjust_page_item(1),
            AppAction::ActivatePageItem => if self.fx_menu.is_some() { self.activate_fx_menu() } else { self.activate_page_item() },
            AppAction::ReverseActivatePageItem => self.reverse_activate_page_item(),
            AppAction::SelectPreviousTimelineContext => self.select_timeline_context(false),
            AppAction::SelectNextTimelineContext => self.select_timeline_context(true),
            AppAction::CycleSelectedTimelineFxKind => self.adjust_selected_timeline_fx_kind(1),
            AppAction::AddSelectedTimelineFx => self.add_selected_timeline_fx(),
            AppAction::DeleteSelectedTimelineFx => self.delete_selected_timeline_fx(),
            AppAction::ToggleSelectedTimelineFx => self.toggle_selected_timeline_fx_enabled(),
            AppAction::MoveSelectedTimelineFxUp => self.move_selected_timeline_fx(-1),
            AppAction::MoveSelectedTimelineFxDown => self.move_selected_timeline_fx(1),
        }
        Some(AppControl::Continue)
    }
}

} // verus!
