//! The application state behind the timeline page.
use vstd::prelude::*;
use crate::clip_align::{
    ClipAlignApplyMode, ClipAlignDestination, ClipAlignSession, ClipAlignSettings, ClipAlignSourceEndMode,
    ClipAlignSourceStartMode, ClipAlignTargetLength,
};
use crate::midi_fx::MidiFxSlot;
use crate::project::{MidiFxChainKind, Project, QuantizeMode, RecordingView, Track, TrackState, Transport};
use crate::fx_menu::FxMenu;
use crate::timeline::LoopRegion;

verus! {

/// Top-level pages.
#[derive(Debug, Clone, Copy, PartialEq, Eq, Structural)]
pub enum AppPage {
    Timeline,
    Mappings,
    MidiIo,
    Routing,
}

/// Which band of the active track the timeline keyboard actions address.
#[derive(Debug, Clone, Copy, PartialEq, Eq, Structural)]
pub enum TimelineContext {
    InputFx,
    TrackTimeline,
    OutputFx,
}

impl TimelineContext {
    pub open spec fn spec_chain_kind(self) -> Option<MidiFxChainKind> {
        match self {
            TimelineContext::InputFx => Some(MidiFxChainKind::Input),
            TimelineContext::TrackTimeline => None,
            TimelineContext::OutputFx => Some(MidiFxChainKind::Output),
        }
    }

    /// The FX rack an FX context addresses.
    pub fn chain_kind(&self) -> (r: Option<MidiFxChainKind>)
        ensures
            r == self.spec_chain_kind(),
    {
        match self {
            TimelineContext::InputFx => Some(MidiFxChainKind::Input),
            TimelineContext::TrackTimeline => None,
            TimelineContext::OutputFx => Some(MidiFxChainKind::Output),
        }
    }

    pub fn label(&self) -> (r: &'static str)
        ensures
            *self == TimelineContext::InputFx ==> r@ == "Input FX"@,
            *self == TimelineContext::TrackTimeline ==> r@ == "Timeline"@,
            *self == TimelineContext::OutputFx ==> r@ == "Output FX"@,
    {
        match self {
            TimelineContext::InputFx => "Input FX",
            TimelineContext::TrackTimeline => "Timeline",
            TimelineContext::OutputFx => "Output FX",
        }
    }
}

/// The FX edit field that keyboard and mapped actions work on.
#[derive(Debug, Clone, Copy, PartialEq, Eq, Structural)]
pub enum TimelineFxField {
    Enabled,
    Kind,
    ParamPrimary,
    ParamSecondary,
    Scroll,
    Move,
}

/// Direction in which time runs on the timeline.
#[derive(Debug, Clone, Copy, PartialEq, Eq, Structural)]
pub enum TimelineFlow {
    DownwardColumns,
    AcrossRows,
}

/// Spacing and hit-target preset.
#[derive(Debug, Clone, Copy, PartialEq, Eq, Structural)]
pub enum UiDensityPreset {
    Default,
    Compact,
    Touch,
    Tiny,
}

/// Overlays drawn above the page.
#[derive(Debug, Clone, Copy, PartialEq, Eq, Structural)]
pub enum AppOverlay {
    MappingsQuickView,
    Discoverability,
}

#[derive(Debug, Clone, Copy, PartialEq, Eq, Structural)]
pub struct OverlayState {
    pub active: Option<AppOverlay>,
}

/// Navigation state of the pages.
#[derive(Debug, Clone, Copy, PartialEq, Eq, Structural)]
pub struct PageState {
    pub current_page: AppPage,
    pub selected_timeline_context: TimelineContext,
    pub selected_timeline_fx_field: TimelineFxField,
}

/// Whether a pointer or control event continues the app or ends it.
#[derive(Debug, Clone, Copy, PartialEq, Eq, Structural)]
pub enum AppControl {
    Continue,
    Quit,
}

/// The application model of the timeline page.
pub struct App {
    pub project: Project,
    pub page_state: PageState,
    pub overlay_state: OverlayState,
    pub focused_track_view: bool,
    pub timeline_flow: TimelineFlow,
    /// Absolute transport position.
    pub transport_ticks: u64,
    /// Position of the song playhead.
    pub playhead_ticks: u64,
    /// Clock used for live FX while the transport is stopped.
    pub live_fx_ticks: u64,
    pub clip_align_session: Option<ClipAlignSession>,
    pub clip_align_defaults: ClipAlignSettings,
    pub ui_density_preset: UiDensityPreset,
    pub viewport_size: (u32, u32),
    /// The open FX choice menu, if any.
    pub fx_menu: Option<FxMenu>,
}

/// Track `i` of the built-in demo project as it starts: empty, one bar long, every switch
/// off, both racks empty (but the first track's transpose), rack selection at the first row
/// and every parameter window at the start.
pub open spec fn demo_track_start(t: Track, i: int) -> bool {
    &&& t.wf()
    &&& t.loop_region == LoopRegion { start_ticks: 0, length_ticks: DEMO_BAR_TICKS }
    &&& t.state == (TrackState { armed: false, muted: false, soloed: false, loop_enabled: false, passthrough: false })
    &&& t.regions@.len() == 0
    &&& t.recording_clips@.len() == 0
    &&& t.midi_notes@.len() == 0
    &&& t.selected_recording_clip_id is None
    &&& t.recording_clip_scroll == 0
    &&& t.recording_view == RecordingView::Overlay
    &&& t.active_take is None
    &&& t.midi_fx.input_fx@ == Seq::new(4, |k: int| None::<MidiFxSlot>)
    &&& t.midi_fx.output_fx@ == (if i == 0 {
        seq![Some(MidiFxSlot::spec_default()), None, None, None]
    } else {
        Seq::new(4, |k: int| None::<MidiFxSlot>)
    })
    &&& t.midi_fx.timeline_ui.input_selected_row == 0
    &&& t.midi_fx.timeline_ui.output_selected_row == 0
    &&& t.midi_fx.timeline_ui.input_param_windows@ == Seq::new(4, |k: int| 0usize)
    &&& t.midi_fx.timeline_ui.output_param_windows@ == Seq::new(4, |k: int| 0usize)
}

/// Number of tracks of the built-in demo project.
pub const DEMO_TRACK_COUNT: usize = 4;

/// One bar at 960 ticks per quarter note.
pub const DEMO_BAR_TICKS: u64 = 3840;

impl App {
    /// The project and its tracks are well formed.
    pub open spec fn wf(self) -> bool {
        self.project.wf()
    }

    pub open spec fn has_active(self) -> bool {
        self.project.active_track_index < self.project.tracks@.len()
    }

    pub open spec fn active(self) -> Track {
        self.project.tracks@[self.project.active_track_index as int]
    }

    /// The app with the built-in demo project: four empty one-bar tracks, the first one
    /// holding a transpose in its output rack, on the timeline page.
    pub fn new() -> (r: App)
        ensures
            r.wf(),
            r.project.tracks@.len() == DEMO_TRACK_COUNT,
            r.project.active_track_index == 0,
            r.has_active(),
            r.page_state == (PageState {
                current_page: AppPage::Timeline,
                selected_timeline_context: TimelineContext::TrackTimeline,
                selected_timeline_fx_field: TimelineFxField::Kind,
            }),
            forall|i: int| 0 <= i < DEMO_TRACK_COUNT ==> #[trigger] demo_track_start(r.project.tracks@[i], i),
            r.project.transport == (Transport {
                playing: false,
                recording: false,
                loop_enabled: false,
                loop_recording_extends_clip: true,
                link_enabled: false,
                tempo_bpm: 120,
                ppqn: 960,
                quantize: QuantizeMode::Sixteenth,
                harmony_root: 0,
            }),
            r.project.loop_region == (LoopRegion { start_ticks: 0, length_ticks: 15360 }),
            r.transport_ticks == 0,
            r.playhead_ticks == 0,
            r.clip_align_session is None,
            !r.focused_track_view,
            r.overlay_state == (OverlayState { active: None }),
            r.timeline_flow == TimelineFlow::DownwardColumns,
            r.live_fx_ticks == 0,
            r.clip_align_defaults == (ClipAlignSettings {
                source_start_mode: ClipAlignSourceStartMode::ClipStart,
                source_end_mode: ClipAlignSourceEndMode::ClipEnd,
                target_length: ClipAlignTargetLength::Bar1,
                destination: ClipAlignDestination::TrackLoop,
                apply_mode: ClipAlignApplyMode::FitOnly,
                enable_loop_on_apply: true,
            }),
            r.ui_density_preset == UiDensityPreset::Default,
            r.viewport_size == (1280u32, 720u32),
            r.fx_menu is None,
    {
        let mut tracks: Vec<Track> = Vec::new();
        let mut i: usize = 0;
        while i < DEMO_TRACK_COUNT
            invariant
                i <= DEMO_TRACK_COUNT,
                tracks@.len() == i,
                forall|j: int| 0 <= j < i ==> #[trigger] demo_track_start(tracks@[j], 1),
            decreases DEMO_TRACK_COUNT - i,
        {
            let track = Track::new(LoopRegion::new(0, DEMO_BAR_TICKS));
            assert(crate::project::clip_ids_unique(track.recording_clips@));
            tracks.push(track);
            i = i + 1;
        }
        assert(demo_track_start(tracks@[0], 1));
        let ghost before = tracks@;
        tracks[0].midi_fx.set_slot(MidiFxChainKind::Output, 0, Some(MidiFxSlot::default()));
        assert(tracks@[0].midi_fx.output_fx@ =~= seq![Some(MidiFxSlot::spec_default()), None, None, None]);
        assert(demo_track_start(before[0], 1));
        assert(demo_track_start(tracks@[0], 0));
        assert forall|j: int| 1 <= j < DEMO_TRACK_COUNT implies #[trigger] demo_track_start(tracks@[j], j) by {
            assert(tracks@[j] == before[j]);
            assert(demo_track_start(before[j], 1));
        }
        assert forall|j: int| 0 <= j < tracks@.len() implies (#[trigger] tracks@[j]).wf() by {
            assert(demo_track_start(tracks@[j], j));
        }
        App {
            project: Project {
                tracks,
                active_track_index: 0,
                transport: Transport {
                    playing: false,
                    recording: false,
                    loop_enabled: false,
                    loop_recording_extends_clip: true,
                    link_enabled: false,
                    tempo_bpm: 120,
                    ppqn: 960,
                    quantize: QuantizeMode::Sixteenth,
                    harmony_root: 0,
                },
                loop_region: LoopRegion::new(0, 4 * DEMO_BAR_TICKS),
            },
            page_state: PageState {
                current_page: AppPage::Timeline,
                selected_timeline_context: TimelineContext::TrackTimeline,
                selected_timeline_fx_field: TimelineFxField::Kind,
            },
            overlay_state: OverlayState { active: None },
            focused_track_view: false,
            timeline_flow: TimelineFlow::DownwardColumns,
            transport_ticks: 0,
            playhead_ticks: 0,
            live_fx_ticks: 0,
            clip_align_session: None,
            clip_align_defaults: ClipAlignSettings::default(),
            ui_density_preset: UiDensityPreset::Default,
            viewport_size: (1280, 720),
            fx_menu: None,
        }
    }
}

} // verus!
