//! Verified timeline model for a MIDI-first tracker: geometry of the timeline page,
//! clip alignment, loop recording and per-track MIDI FX rack selection.

pub mod geometry;
pub mod branding;
pub mod options;
pub mod timeline;
pub mod text;
pub mod midi_fx;
pub mod project;
pub mod clip_align;
pub mod app;
pub mod fx_rack;
pub mod recording;
pub mod lanes;
pub mod align_panel;
pub mod track_actions;
pub mod actions;
pub mod keyboard;
pub mod pointer;
pub mod marks;
pub mod fx_menu;
pub mod track_strip;
pub mod transport_strip;
pub mod fx_layout;
pub mod columns;
pub mod laws;
