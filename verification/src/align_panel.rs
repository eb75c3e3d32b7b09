//! The clip align panel of the timeline page: opening it on the selected clip, stepping its
//! fields, and applying the fit to the track or song loop.
use vstd::prelude::*;
use vstd::string::*;
use crate::app::{App, AppControl};
use crate::clip_align::{
    ClipAlignApplyMode, ClipAlignBlock, ClipAlignDestination, ClipAlignField, ClipAlignPreview,
    ClipAlignSession, ClipAlignSettings, ClipAlignSourceEndMode, ClipAlignSourceStartMode,
    adjusted_settings, apply_clip_align, clip_align_applied, clip_previewed, preview_clip_align,
    spec_adjusted_settings, suggested_target_length, target_suggested,
};
use crate::geometry::{Rect, lemma_made_wf, rect_contains};
use crate::project::{Track, TrackState, Transport, clip_position};
use crate::text::{decimal, decimal_string, push_decimal};
use crate::timeline::LoopRegion;

verus! {

/// The clip a clip action addresses: the selected clip, or the only clip of the track.
pub open spec fn selected_or_only(track: Track) -> Option<int> {
    match track.selected_recording_clip_id {
        Some(id) => match clip_position(track.recording_clips@, id) {
            Some(i) => Some(i),
            None => if track.recording_clips@.len() == 1 { Some(0) } else { None },
        },
        None => if track.recording_clips@.len() == 1 { Some(0) } else { None },
    }
}

/// Where a fit onto `destination` starts: the start of the track loop or of the song loop.
pub open spec fn destination_start(app: App, track_index: usize, destination: ClipAlignDestination) -> Option<u64> {
    match destination {
        ClipAlignDestination::TrackLoop => if track_index < app.project.tracks@.len() {
            Some(app.project.tracks@[track_index as int].loop_region.start_ticks)
        } else {
            None
        },
        ClipAlignDestination::SongLoop => Some(app.project.loop_region.start_ticks),
    }
}

/// A fit may commit its tempo only while the tempo is not shared over Link.
pub open spec fn tempo_commit_allowed(app: App) -> bool {
    !app.project.transport.link_enabled
}

/// Everything but the open panel is unchanged.
pub open spec fn only_panel_changed(a: App, b: App) -> bool {
    &&& b.project.tracks@ == a.project.tracks@
    &&& b.project.active_track_index == a.project.active_track_index
    &&& b.project.transport == a.project.transport
    &&& b.project.loop_region == a.project.loop_region
    &&& b.page_state == a.page_state
    &&& b.overlay_state == a.overlay_state
    &&& b.focused_track_view == a.focused_track_view
    &&& b.timeline_flow == a.timeline_flow
    &&& b.transport_ticks == a.transport_ticks
    &&& b.playhead_ticks == a.playhead_ticks
    &&& b.live_fx_ticks == a.live_fx_ticks
    &&& b.clip_align_defaults == a.clip_align_defaults
    &&& b.ui_density_preset == a.ui_density_preset
    &&& b.viewport_size == a.viewport_size
    &&& b.fx_menu == a.fx_menu
}

/// Effect of `refresh_clip_align_preview`: the open panel shows the preview of its settings
/// on the current track; a panel whose track is gone closes.
pub open spec fn preview_refreshed(a: App, b: App) -> bool {
    &&& only_panel_changed(a, b)
    &&& match a.clip_align_session {
        None => b.clip_align_session is None,
        Some(session) => if session.track_index >= a.project.tracks@.len() {
            b.clip_align_session is None
        } else {
            exists|r: Option<ClipAlignPreview>| {
                &&& #[trigger] clip_previewed(a.project.tracks@[session.track_index as int], a.project.transport, session.clip_id,
                    session.settings, tempo_commit_allowed(a), r)
                &&& b.clip_align_session == Some(match r {
                    Some(p) => ClipAlignSession { preview: p, ..session },
                    None => session,
                })
            }
        },
    }
}

/// The loop a successful fit of `session` onto `dest` sets: as long as the previewed target,
/// at least one tick.
pub open spec fn fitted_loop(session: ClipAlignSession, dest: u64) -> LoopRegion {
    LoopRegion {
        start_ticks: dest,
        length_ticks: if session.preview.target_length_ticks > 0 { session.preview.target_length_ticks } else { 1 },
    }
}

/// Effect of a successful apply: the fitted track (`fitted`) gets the new track loop, or the
/// song gets the new song loop, the loop is enabled when the settings say so, the tempo is
/// committed, the fitted track becomes active, the settings become the defaults and the
/// panel closes.
pub open spec fn clip_align_committed(a: App, b: App, session: ClipAlignSession, dest: u64, fitted: Track, tempo: Option<u16>) -> bool {
    let t = session.track_index as int;
    let track_loop = session.settings.destination == ClipAlignDestination::TrackLoop;
    let enable = session.settings.enable_loop_on_apply;
    &&& b.project.tracks@ == a.project.tracks@.update(t, if track_loop {
        Track {
            loop_region: fitted_loop(session, dest),
            state: TrackState { loop_enabled: fitted.state.loop_enabled || enable, ..fitted.state },
            ..fitted
        }
    } else {
        fitted
    })
    &&& b.project.loop_region == (if track_loop { a.project.loop_region } else { fitted_loop(session, dest) })
    &&& b.project.transport == (Transport {
        loop_enabled: a.project.transport.loop_enabled || (!track_loop && enable),
        tempo_bpm: match tempo { Some(bpm) => bpm, None => a.project.transport.tempo_bpm },
        ..a.project.transport
    })
    &&& b.project.active_track_index == session.track_index
    &&& b.clip_align_defaults == session.settings
    &&& b.clip_align_session is None
    &&& b.page_state == a.page_state
    &&& b.overlay_state == a.overlay_state
    &&& b.focused_track_view == a.focused_track_view
    &&& b.timeline_flow == a.timeline_flow
    &&& b.transport_ticks == a.transport_ticks
    &&& b.playhead_ticks == a.playhead_ticks
    &&& b.live_fx_ticks == a.live_fx_ticks
    &&& b.ui_density_preset == a.ui_density_preset
    &&& b.viewport_size == a.viewport_size
}

/// Effect of `open_selected_recording_clip_align`: the panel opens on the clip a clip action
/// addresses on the active track, with the default settings and the target length suggested
/// for the clip, and any overlay closes; without such a clip nothing changes.
pub open spec fn clip_align_opened(a: App, b: App) -> bool {
    &&& b.project.tracks@ == a.project.tracks@
    &&& b.project.active_track_index == a.project.active_track_index
    &&& b.project.transport == a.project.transport
    &&& b.project.loop_region == a.project.loop_region
    &&& b.page_state == a.page_state
    &&& b.clip_align_defaults == a.clip_align_defaults
    &&& (a.has_active() && selected_or_only(a.active()) is Some) ==> ({
        let track = a.active();
        let clip = track.recording_clips@[selected_or_only(track)->0];
        &&& b.overlay_state.active is None
        &&& b.clip_align_session matches Some(session) && {
            &&& session.track_index == a.project.active_track_index
            &&& session.clip_id == clip.id
            &&& session.selected_field == ClipAlignField::SourceStart
            &&& exists|suggestion: Option<crate::clip_align::ClipAlignTargetLength>| {
                &&& #[trigger] target_suggested(clip, track.midi_notes@, a.clip_align_defaults, a.project.transport, suggestion)
                &&& session.settings == match suggestion {
                    Some(t) => ClipAlignSettings { target_length: t, ..a.clip_align_defaults },
                    None => a.clip_align_defaults,
                }
            }
            &&& clip_previewed(track, a.project.transport, clip.id, session.settings, tempo_commit_allowed(a), Some(session.preview))
        }
    })
    &&& !(a.has_active() && selected_or_only(a.active()) is Some) ==> only_panel_changed(a, b)
        && b.clip_align_session == a.clip_align_session
    &&& b.focused_track_view == a.focused_track_view
    &&& b.timeline_flow == a.timeline_flow
    &&& b.transport_ticks == a.transport_ticks
    &&& b.playhead_ticks == a.playhead_ticks
    &&& b.live_fx_ticks == a.live_fx_ticks
    &&& b.ui_density_preset == a.ui_density_preset
    &&& b.viewport_size == a.viewport_size
}

/// Effect of `adjust_clip_align_field`: the selected field of the open panel steps and the
/// preview is refreshed.
pub open spec fn clip_align_field_adjusted(a: App, b: App, delta: i32) -> bool {
    &&& match a.clip_align_session {
        None => only_panel_changed(a, b) && b.clip_align_session is None,
        Some(session) => exists|mid: App| {
            &&& only_panel_changed(a, mid)
            &&& mid.clip_align_session == Some(ClipAlignSession {
                settings: spec_adjusted_settings(session.selected_field, session.settings, delta as int),
                ..session
            })
            &&& #[trigger] preview_refreshed(mid, b)
        },
    }
}

/// Effect of `select_clip_align_field`: the neighbouring field of the open panel is selected.
pub open spec fn clip_align_field_selected(a: App, b: App, forward: bool) -> bool {
    &&& only_panel_changed(a, b)
    &&& match a.clip_align_session {
        None => b.clip_align_session is None,
        Some(session) => b.clip_align_session matches Some(next) && next == ClipAlignSession {
            selected_field: next.selected_field,
            ..session
        } && next.selected_field.spec_index() == (if forward {
            (session.selected_field.spec_index() + 1) % 6
        } else {
            (session.selected_field.spec_index() + 5) % 6
        }),
    }
}

/// Effect of `apply_clip_align`: the fit is applied and the panel closed, or a blocked fit
/// refreshes the preview.
pub open spec fn clip_align_done(a: App, b: App) -> bool {
    &&& match a.clip_align_session {
        None => only_panel_changed(a, b) && b.clip_align_session is None,
        Some(session) => match destination_start(a, session.track_index, session.settings.destination) {
            None => only_panel_changed(a, b) && b.clip_align_session == a.clip_align_session,
            Some(dest) => if session.track_index >= a.project.tracks@.len() {
                only_panel_changed(a, b) && b.clip_align_session is None
            } else if dest + fitted_loop(session, dest).length_ticks > u64::MAX {
                preview_refreshed(a, b)
            } else {
                exists|r: Result<Option<u16>, ClipAlignBlock>, fitted: Track| {
                    &&& #[trigger] clip_align_applied(a.project.tracks@[session.track_index as int], fitted,
                        a.project.transport, session.clip_id, session.settings, dest, tempo_commit_allowed(a), r)
                    &&& r is Err ==> preview_refreshed(a, b)
                    &&& r matches Ok(tempo) ==> clip_align_committed(a, b, session, dest, fitted, tempo)
                }
            },
        },
    }
}

/// Label of a panel field.
pub open spec fn field_label(field: ClipAlignField) -> Seq<char> {
    match field {
        ClipAlignField::SourceStart => "Start"@,
        ClipAlignField::SourceEnd => "End"@,
        ClipAlignField::TargetLength => "Length"@,
        ClipAlignField::Destination => "Dest"@,
        ClipAlignField::ApplyMode => "Mode"@,
        ClipAlignField::LoopEnable => "Loop"@,
    }
}

/// Value shown for a panel field.
pub open spec fn field_value(field: ClipAlignField, s: ClipAlignSettings) -> Seq<char> {
    match field {
        ClipAlignField::SourceStart => match s.source_start_mode {
            ClipAlignSourceStartMode::ClipStart => "Clip Start"@,
            ClipAlignSourceStartMode::FirstNote => "First Note"@,
        },
        ClipAlignField::SourceEnd => match s.source_end_mode {
            ClipAlignSourceEndMode::ClipEnd => "Clip End"@,
            ClipAlignSourceEndMode::StartOfLastNote => "Start Last Note"@,
            ClipAlignSourceEndMode::LastNoteEnd => "Last Note End"@,
        },
        ClipAlignField::TargetLength => decimal(s.target_length.spec_bars()) + " bars"@,
        ClipAlignField::Destination => match s.destination {
            ClipAlignDestination::TrackLoop => "Track Loop"@,
            ClipAlignDestination::SongLoop => "Song Loop"@,
        },
        ClipAlignField::ApplyMode => match s.apply_mode {
            ClipAlignApplyMode::FitOnly => "Fit Only"@,
            ClipAlignApplyMode::FitAndTempo => "Fit+Tempo"@,
        },
        ClipAlignField::LoopEnable => if s.enable_loop_on_apply { "Enable"@ } else { "Keep"@ },
    }
}

/// Text of a blocked fit.
pub open spec fn block_text(block: ClipAlignBlock) -> Seq<char> {
    match block {
        ClipAlignBlock::EmptySource => "Empty source range"@,
        ClipAlignBlock::TempoOutOfRange => "Tempo out of range"@,
        ClipAlignBlock::MissingClip => "Clip not found"@,
    }
}

/// The footer line of an open panel.
pub open spec fn footer_detail(session: ClipAlignSession, tempo_bpm: u16) -> Seq<char> {
    let p = session.preview;
    match p.blocked_reason {
        Some(block) => block_text(block),
        None => if p.tempo_locked {
            decimal(session.settings.target_length.spec_bars()) + " bars, "@
                + decimal((match p.tempo_preview_bpm { Some(bpm) => bpm, None => tempo_bpm }) as nat)
                + " BPM preview, tempo locked"@
        } else {
            match p.tempo_preview_bpm {
                Some(bpm) => decimal(p.source_length_ticks as nat) + " -> "@ + decimal(p.target_length_ticks as nat)
                    + " ticks @ "@ + decimal(bpm as nat) + " BPM"@,
                None => decimal(p.source_length_ticks as nat) + " -> "@ + decimal(p.target_length_ticks as nat) + " ticks"@,
            }
        },
    }
}

impl App {
    /// The panel, anchored to the top left of the page content.
    pub fn clip_align_panel_rect(&self, content_bounds: Rect) -> (r: Rect)
        requires
            content_bounds.wf(),
        ensures
            r == Rect::made(content_bounds.x + 12, content_bounds.y + 36, 364, 228),
    {
        Rect::new(content_bounds.x + 12, content_bounds.y + 36, 364, 228)
    }

    /// One row per field, in panel order.
    pub fn clip_align_field_rects(&self, panel_rect: Rect) -> (r: Vec<(ClipAlignField, Rect)>)
        requires
            panel_rect.wf(),
        ensures
            r@.len() == 6,
            forall|i: int| 0 <= i < 6 ==> (#[trigger] r@[i]).0.spec_index() == i && r@[i].1 == Rect::made(
                panel_rect.x + 10, panel_rect.y + 28 + 20 * i, if panel_rect.w >= 20 { panel_rect.w - 20 } else { 0 }, 18),
    {
        let fields = ClipAlignField::all();
        let width = if panel_rect.width() >= 20 { panel_rect.width() - 20 } else { 0 };
        let mut r: Vec<(ClipAlignField, Rect)> = Vec::new();
        let mut i: usize = 0;
        while i < 6
            invariant
                i <= 6,
                fields@.len() == 6,
                forall|j: int| 0 <= j < 6 ==> (#[trigger] fields@[j]).spec_index() == j,
                panel_rect.wf(),
                width == (if panel_rect.w >= 20 { panel_rect.w - 20 } else { 0 }),
                r@.len() == i,
                forall|j: int| 0 <= j < i ==> (#[trigger] r@[j]).0.spec_index() == j && r@[j].1 == Rect::made(
                    panel_rect.x + 10, panel_rect.y + 28 + 20 * j, if panel_rect.w >= 20 { panel_rect.w - 20 } else { 0 }, 18),
            decreases 6 - i,
        {
            let row = Rect::new(panel_rect.x + 10, panel_rect.y + 28 + (i as i32) * 20, width, 18);
            r.push((fields[i], row));
            i = i + 1;
        }
        r
    }

    /// The apply and cancel buttons at the bottom of the panel.
    pub fn clip_align_button_rects(&self, panel_rect: Rect) -> (r: (Rect, Rect))
        requires
            panel_rect.wf(),
        ensures
            r.0 == Rect::made(panel_rect.x + 10, panel_rect.y + 198, 104, 18),
            r.1 == Rect::made(panel_rect.x + 120, panel_rect.y + 198, 104, 18),
    {
        (
            Rect::new(panel_rect.x + 10, panel_rect.y + 198, 104, 18),
            Rect::new(panel_rect.x + 120, panel_rect.y + 198, 104, 18),
        )
    }

    /// Label and value of a field of the open panel.
    pub fn clip_align_field_label_value(&self, field: ClipAlignField, session: &ClipAlignSession) -> (r: (&'static str, String))
        ensures
            r.0@ == field_label(field),
            r.1@ == field_value(field, session.settings),
    {
        let s = session.settings;
        match field {
            ClipAlignField::SourceStart => ("Start", String::from_str(match s.source_start_mode {
                ClipAlignSourceStartMode::ClipStart => "Clip Start",
                ClipAlignSourceStartMode::FirstNote => "First Note",
            })),
            ClipAlignField::SourceEnd => ("End", String::from_str(match s.source_end_mode {
                ClipAlignSourceEndMode::ClipEnd => "Clip End",
                ClipAlignSourceEndMode::StartOfLastNote => "Start Last Note",
                ClipAlignSourceEndMode::LastNoteEnd => "Last Note End",
            })),
            ClipAlignField::TargetLength => {
                let mut value = decimal_string(s.target_length.bars());
                value.append(" bars");
                ("Length", value)
            },
            ClipAlignField::Destination => ("Dest", String::from_str(match s.destination {
                ClipAlignDestination::TrackLoop => "Track Loop",
                ClipAlignDestination::SongLoop => "Song Loop",
            })),
            ClipAlignField::ApplyMode => ("Mode", String::from_str(match s.apply_mode {
                ClipAlignApplyMode::FitOnly => "Fit Only",
                ClipAlignApplyMode::FitAndTempo => "Fit+Tempo",
            })),
            ClipAlignField::LoopEnable => ("Loop", String::from_str(if s.enable_loop_on_apply { "Enable" } else { "Keep" })),
        }
    }

    /// Title and detail line of the footer while the panel is open.
    pub fn clip_align_footer_content(&self) -> (r: Option<(String, String)>)
        ensures
            r is Some <==> self.clip_align_session is Some,
            r matches Some((title, detail)) ==> title@ == "Clip Align"@
                && detail@ == footer_detail(self.clip_align_session->0, self.project.transport.tempo_bpm),
    {
        let session = match self.clip_align_session {
            Some(session) => session,
            None => return None,
        };
        let p = session.preview;
        let detail = match p.blocked_reason {
            Some(block) => String::from_str(block.label()),
            None => if p.tempo_locked {
                let bpm = match p.tempo_preview_bpm {
                    Some(bpm) => bpm,
                    None => self.project.transport.tempo_bpm,
                };
                let mut d = decimal_string(session.settings.target_length.bars());
                d.append(" bars, ");
                push_decimal(&mut d, bpm as u64);
                d.append(" BPM preview, tempo locked");
                d
            } else {
                let mut d = decimal_string(p.source_length_ticks);
                d.append(" -> ");
                push_decimal(&mut d, p.target_length_ticks);
                match p.tempo_preview_bpm {
                    Some(bpm) => {
                        d.append(" ticks @ ");
                        push_decimal(&mut d, bpm as u64);
                        d.append(" BPM");
                    },
                    None => {
                        d.append(" ticks");
                    },
                }
                d
            },
        };
        Some((String::from_str("Clip Align"), detail))
    }

    /// A fit may commit its tempo only while the tempo is not shared over Link.
    pub fn clip_align_tempo_commit_allowed(&self) -> (r: bool)
        ensures
            r == tempo_commit_allowed(*self),
    {
        !self.project.transport.link_enabled
    }

    /// Where a fit onto `destination` starts.
    pub fn clip_align_destination_start_ticks(&self, track_index: usize, destination: ClipAlignDestination) -> (r: Option<u64>)
        ensures
            r == destination_start(*self, track_index, destination),
    {
        match destination {
            ClipAlignDestination::TrackLoop => if track_index < self.project.tracks.len() {
                Some(self.project.tracks[track_index].loop_region.start_ticks)
            } else {
                None
            },
            ClipAlignDestination::SongLoop => Some(self.project.loop_region.start_ticks),
        }
    }

    /// Whether `track` has a clip that clip actions can address.
    pub fn clip_align_track_has_available_clip(&self, track: &Track) -> (r: bool)
        requires
            track.wf(),
        ensures
            r == (selected_or_only(*track) is Some),
    {
        selected_clip_or_only(track).is_some()
    }
}

/// The clip a clip action addresses.
pub fn selected_clip_or_only(track: &Track) -> (r: Option<usize>)
    requires
        track.wf(),
    ensures
        r matches Some(i) ==> selected_or_only(*track) == Some(i as int) && i < track.recording_clips@.len(),
        r is None ==> selected_or_only(*track) is None,
{
    match track.selected_recording_clip_index() {
        Some(i) => {
            proof {
                crate::lanes::lemma_found_position(track.recording_clips@, track.selected_recording_clip_id->0, i as int);
            }
            Some(i)
        },
        None => {
            proof {
                crate::lanes::lemma_no_position(track.recording_clips@, track.selected_recording_clip_id);
            }
            if track.recording_clips.len() == 1 { Some(0) } else { None }
        },
    }
}

impl App {
    /// Opens the panel on the clip a clip action addresses on the active track, with the
    /// default settings and the target length suggested for the clip.
    pub fn open_selected_recording_clip_align(&mut self)
        requires
            old(self).wf(),
        ensures
            clip_align_opened(*old(self), *final(self)),
    {
        let track_index = self.project.active_track_index;
        if track_index >= self.project.tracks.len() {
            return;
        }
        proof {
            assert(self.project.tracks@[track_index as int].wf());
        }
        let clip_position = match selected_clip_or_only(&self.project.tracks[track_index]) {
            Some(i) => i,
            None => return,
        };
        let transport = self.project.transport;
        let clip = self.project.tracks[track_index].recording_clips[clip_position];
        let mut settings = self.clip_align_defaults;
        let suggestion = suggested_target_length(&clip, &self.project.tracks[track_index].midi_notes, settings, &transport);
        if let Some(target) = suggestion {
            settings.target_length = target;
        }
        let allowed = self.clip_align_tempo_commit_allowed();
        let preview = match preview_clip_align(&self.project.tracks[track_index], &transport, clip.id, settings, allowed) {
            Some(p) => p,
            None => {
                proof {
                    assert(self.project.tracks@[track_index as int].recording_clips@[clip_position as int].id == clip.id);
                }
                return;
            },
        };
        self.clip_align_session = Some(ClipAlignSession {
            track_index,
            clip_id: clip.id,
            selected_field: ClipAlignField::SourceStart,
            settings,
            preview,
        });
        self.overlay_state.active = None;
    }

    /// Closes the panel without applying.
    pub fn close_clip_align(&mut self)
        ensures
            only_panel_changed(*old(self), *final(self)),
            final(self).clip_align_session is None,
    {
        self.clip_align_session = None;
    }

    /// Recomputes the preview of the open panel.
    pub fn refresh_clip_align_preview(&mut self)
        ensures
            preview_refreshed(*old(self), *final(self)),
    {
        let session = match self.clip_align_session {
            Some(session) => session,
            None => return,
        };
        if session.track_index >= self.project.tracks.len() {
            self.clip_align_session = None;
            return;
        }
        let allowed = self.clip_align_tempo_commit_allowed();
        let transport = self.project.transport;
        let r = preview_clip_align(&self.project.tracks[session.track_index], &transport, session.clip_id, session.settings, allowed);
        if let Some(p) = r {
            self.clip_align_session = Some(ClipAlignSession { preview: p, ..session });
        }
        assert(clip_previewed(old(self).project.tracks@[session.track_index as int], old(self).project.transport, session.clip_id,
            session.settings, tempo_commit_allowed(*old(self)), r));
    }

    /// Steps the selected field of the open panel and refreshes its preview.
    pub fn adjust_clip_align_field(&mut self, delta: i32)
        ensures
            clip_align_field_adjusted(*old(self), *final(self), delta),
    {
        let session = match self.clip_align_session {
            Some(session) => session,
            None => return,
        };
        self.clip_align_session = Some(ClipAlignSession {
            settings: adjusted_settings(session.selected_field, session.settings, delta),
            ..session
        });
        let ghost mid = *self;
        self.refresh_clip_align_preview();
        assert(preview_refreshed(mid, *self));
    }

    /// Selects the next or previous field of the open panel, wrapping around.
    pub fn select_clip_align_field(&mut self, forward: bool)
        ensures
            clip_align_field_selected(*old(self), *final(self), forward),
    {
        if let Some(session) = self.clip_align_session {
            self.clip_align_session = Some(ClipAlignSession { selected_field: session.selected_field.step(forward), ..session });
        }
    }
}

impl App {
    /// Applies the open panel: fits the clip, sets the destination loop to the previewed
    /// target, commits the tempo, makes the settings the defaults and closes the panel. A fit
    /// that is blocked leaves everything but the refreshed preview as it was.
    pub fn apply_clip_align(&mut self)
        requires
            old(self).wf(),
        ensures
            final(self).wf(),
            clip_align_done(*old(self), *final(self)),
    {
        let session = match self.clip_align_session {
            Some(session) => session,
            None => return,
        };
        let dest = match self.clip_align_destination_start_ticks(session.track_index, session.settings.destination) {
            Some(dest) => dest,
            None => return,
        };
        let allowed = self.clip_align_tempo_commit_allowed();
        let t = session.track_index;
        if t >= self.project.tracks.len() {
            self.close_clip_align();
            return;
        }
        let length: u64 = if session.preview.target_length_ticks > 0 { session.preview.target_length_ticks } else { 1 };
        if dest > u64::MAX - length {
            self.refresh_clip_align_preview();
            return;
        }
        let transport = self.project.transport;
        proof {
            assert(self.project.tracks@[t as int].wf());
        }
        let result = apply_clip_align(&mut self.project.tracks[t], &transport, session.clip_id, session.settings, dest, allowed);
        let ghost fitted = self.project.tracks@[t as int];
        match result {
            Err(_) => {
                assert(self.project.tracks@ =~= old(self).project.tracks@);
                let ghost mid = *self;
                self.refresh_clip_align_preview();
                proof {
                    assert(preview_refreshed(mid, *self));
                    assert(only_panel_changed(*old(self), *self));
                    assert(preview_refreshed(*old(self), *self));
                    assert(clip_align_applied(old(self).project.tracks@[t as int], fitted,
                        old(self).project.transport, session.clip_id, session.settings, dest, tempo_commit_allowed(*old(self)), result));
                    assert(result is Err);
                    assert(!(result matches Ok(tempo)));
                    assert(dest + fitted_loop(session, dest).length_ticks <= u64::MAX);
                    assert(destination_start(*old(self), session.track_index, session.settings.destination) == Some(dest));
                    assert(exists|r: Result<Option<u16>, ClipAlignBlock>, f: Track| {
                        &&& #[trigger] clip_align_applied(old(self).project.tracks@[session.track_index as int], f,
                            old(self).project.transport, session.clip_id, session.settings, dest, tempo_commit_allowed(*old(self)), r)
                        &&& r is Err ==> preview_refreshed(*old(self), *self)
                        &&& r matches Ok(tempo) ==> clip_align_committed(*old(self), *self, session, dest, f, tempo)
                    });
                }
                return;
            },
            Ok(tempo) => {
                proof {
                    assert forall|i: int| 0 <= i < self.project.tracks@.len() implies (#[trigger] self.project.tracks@[i]).wf() by {
                        assert(old(self).project.tracks@[i].wf());
                    }
                    assert(clip_align_applied(old(self).project.tracks@[t as int], fitted,
                        old(self).project.transport, session.clip_id, session.settings, dest, tempo_commit_allowed(*old(self)), result));
                    assert(self.project.tracks@ =~= old(self).project.tracks@.update(t as int, fitted));
                }
                let ghost mid = *self;
                self.commit_clip_align_fit(session, dest, tempo);
                proof {
                    let track_loop = session.settings.destination == ClipAlignDestination::TrackLoop;
                    let expected = if track_loop {
                        Track {
                            loop_region: fitted_loop(session, dest),
                            state: TrackState { loop_enabled: fitted.state.loop_enabled || session.settings.enable_loop_on_apply, ..fitted.state },
                            ..fitted
                        }
                    } else {
                        fitted
                    };
                    assert(self.project.tracks@ =~= old(self).project.tracks@.update(t as int, expected));
                    assert(clip_align_committed(*old(self), *self, session, dest, fitted, tempo));
                }
            },
        }
    }

    /// Sets the destination loop, the loop switch and the tempo after a successful fit of the
    /// panel's clip, and closes the panel.
    #[verifier::rlimit(100)]
    fn commit_clip_align_fit(&mut self, session: ClipAlignSession, dest: u64, tempo: Option<u16>)
        requires
            old(self).wf(),
            session.track_index < old(self).project.tracks@.len(),
            dest + fitted_loop(session, dest).length_ticks <= u64::MAX,
        ensures
            final(self).wf(),
            clip_align_committed(*old(self), *final(self), session, dest, old(self).project.tracks@[session.track_index as int], tempo),
    {
        let t = session.track_index;
        let length: u64 = if session.preview.target_length_ticks > 0 { session.preview.target_length_ticks } else { 1 };
        let region = LoopRegion { start_ticks: dest, length_ticks: length };
        let enable = session.settings.enable_loop_on_apply;
        match session.settings.destination {
            ClipAlignDestination::TrackLoop => {
                proof {
                    assert(self.project.tracks@[t as int].wf());
                }
                self.project.tracks[t].set_loop(region, enable);
                proof {
                    assert forall|i: int| 0 <= i < self.project.tracks@.len() implies (#[trigger] self.project.tracks@[i]).wf() by {
                        assert(old(self).project.tracks@[i].wf());
                    }
                }
            },
            ClipAlignDestination::SongLoop => {
                self.project.loop_region = region;
                if enable {
                    self.project.transport.loop_enabled = true;
                }
                assert(self.project.tracks@ =~= old(self).project.tracks@.update(t as int, old(self).project.tracks@[t as int]));
            },
        }
        if let Some(bpm) = tempo {
            self.project.transport.tempo_bpm = bpm;
        }
        self.project.active_track_index = t;
        self.clip_align_defaults = session.settings;
        self.clip_align_session = None;
    }

    /// Pointer press while the panel is open: outside the panel it is swallowed, on the
    /// buttons it applies or cancels, and on the left or right half of a field row it selects
    /// the field and steps it backward or forward.
    pub fn handle_clip_align_pointer_down(&mut self, content_bounds: Rect, x: i32, y: i32) -> (r: Option<AppControl>)
        requires
            old(self).wf(),
            content_bounds.wf(),
        ensures
            final(self).wf(),
            clip_align_pointer_handled(*old(self), *final(self), content_bounds, x as int, y as int, r),
    {
        if self.page_state.current_page != crate::app::AppPage::Timeline {
            return None;
        }
        let session = match self.clip_align_session {
            Some(session) => session,
            None => return None,
        };
        let panel_rect = self.clip_align_panel_rect(content_bounds);
        proof {
            lemma_made_wf(content_bounds.x + 12, content_bounds.y + 36, 364, 228);
        }
        if !rect_contains(panel_rect, x, y) {
            return Some(AppControl::Continue);
        }
        let (apply_rect, cancel_rect) = self.clip_align_button_rects(panel_rect);
        proof {
            lemma_made_wf(panel_rect.x + 10, panel_rect.y + 198, 104, 18);
            lemma_made_wf(panel_rect.x + 120, panel_rect.y + 198, 104, 18);
        }
        if rect_contains(apply_rect, x, y) {
            self.apply_clip_align();
            return Some(AppControl::Continue);
        }
        if rect_contains(cancel_rect, x, y) {
            self.close_clip_align();
            return Some(AppControl::Continue);
        }
        let rows = self.clip_align_field_rects(panel_rect);
        let mut i: usize = 0;
        while i < rows.len()
            invariant
                i <= rows@.len(),
                rows@.len() == 6,
                *self == *old(self),
                self.wf(),
                self.clip_align_session == Some(session),
                self.page_state.current_page == crate::app::AppPage::Timeline,
                panel_rect == Rect::made(content_bounds.x + 12, content_bounds.y + 36, 364, 228),
                panel_rect.contains(x as int, y as int),
                !apply_rect.contains(x as int, y as int),
                !cancel_rect.contains(x as int, y as int),
                apply_rect == Rect::made(panel_rect.x + 10, panel_rect.y + 198, 104, 18),
                cancel_rect == Rect::made(panel_rect.x + 120, panel_rect.y + 198, 104, 18),
                panel_rect.wf(),
                forall|j: int| 0 <= j < 6 ==> (#[trigger] rows@[j]).0.spec_index() == j && rows@[j].1 == field_row_rect(panel_rect, j),
                first_field_row(panel_rect, x as int, y as int, 0) == first_field_row(panel_rect, x as int, y as int, i as int),
            decreases rows@.len() - i,
        {
            let (field, rect) = rows[i];
            proof {
                lemma_made_wf(panel_rect.x + 10, panel_rect.y + 28 + 20 * i, if panel_rect.w >= 20 { panel_rect.w - 20 } else { 0 }, 18);
            }
            if rect_contains(rect, x, y) {
                let ghost before = *self;
                self.clip_align_session = Some(ClipAlignSession { selected_field: field, ..session });
                let half: i32 = (rect.width() / 2) as i32;
                let delta: i32 = if x < rect.x + half { -1 } else { 1 };
                let ghost mid = *self;
                assert(mid == selected_row_app(before, field));
                proof {
                    assert(first_field_row(panel_rect, x as int, y as int, i as int) == Some(i as int));
                    assert(ClipAlignField::spec_from_index(i as nat) == field);
                    assert(rect == field_row_rect(panel_rect, i as int));
                }
                self.adjust_clip_align_field(delta);
                return Some(AppControl::Continue);
            }
            i = i + 1;
        }
        Some(AppControl::Continue)
    }
}

/// Row `i` of the field list of `panel`.
pub open spec fn field_row_rect(panel: Rect, i: int) -> Rect {
    Rect::made(panel.x + 10, panel.y + 28 + 20 * i, if panel.w >= 20 { panel.w - 20 } else { 0 }, 18)
}

/// The first field row, from row `i` on, that holds the point.
pub open spec fn first_field_row(panel: Rect, x: int, y: int, i: int) -> Option<int>
    decreases 6 - i,
{
    if i < 0 || i >= 6 {
        None
    } else if field_row_rect(panel, i).contains(x, y) {
        Some(i)
    } else {
        first_field_row(panel, x, y, i + 1)
    }
}

/// The app with field `field` selected in its open panel.
pub open spec fn selected_row_app(a: App, field: ClipAlignField) -> App {
    App {
        clip_align_session: match a.clip_align_session {
            Some(session) => Some(ClipAlignSession { selected_field: field, ..session }),
            None => None,
        },
        ..a
    }
}

/// Effect of `handle_clip_align_pointer_down`. Off the timeline page or with no panel open the
/// press is not handled and nothing changes. Otherwise it is consumed: outside the panel it
/// changes nothing; on Apply the panel is applied; on Cancel it closes; on a field row the
/// field is selected and stepped back on the row's left half or forward on its right half.
pub open spec fn clip_align_pointer_handled(a: App, b: App, content_bounds: Rect, x: int, y: int, r: Option<AppControl>) -> bool {
    let panel = Rect::made(content_bounds.x + 12, content_bounds.y + 36, 364, 228);
    let apply = Rect::made(panel.x + 10, panel.y + 198, 104, 18);
    let cancel = Rect::made(panel.x + 120, panel.y + 198, 104, 18);
    if a.page_state.current_page != crate::app::AppPage::Timeline || a.clip_align_session is None {
        r is None && b == a
    } else {
        &&& r == Some(AppControl::Continue)
        &&& if !panel.contains(x, y) {
            b == a
        } else if apply.contains(x, y) {
            clip_align_done(a, b)
        } else if cancel.contains(x, y) {
            only_panel_changed(a, b) && b.clip_align_session is None
        } else {
            match first_field_row(panel, x, y, 0) {
                Some(i) => {
                    let row = field_row_rect(panel, i);
                    let delta: i32 = if x < row.x + row.w / 2 { -1i32 } else { 1i32 };
                    clip_align_field_adjusted(selected_row_app(a, ClipAlignField::spec_from_index(i as nat)), b, delta)
                },
                None => b == a,
            }
        }
    }
}

} // verus!
