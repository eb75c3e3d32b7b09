//! Launch options of the application and of its screenshot capture mode.
use vstd::prelude::*;

verus! {

/// Where and how the renderer writes deterministic UI captures (paths held as text).
#[derive(Debug, Clone, PartialEq, Eq)]
pub struct UiCaptureOptions {
    pub output_dir: String,
    pub state_mode: String,
    pub script_path: Option<String>,
    pub capture_region: Option<String>,
    pub capture_rect: Option<CaptureRect>,
    pub capture_padding: Option<CapturePadding>,
    pub annotation_path: Option<String>,
    pub sequence_path: Option<String>,
}

/// Window presentation of the interactive app.
#[derive(Debug, Clone, Copy, PartialEq, Eq, Default)]
pub enum VideoMode {
    #[default]
    Windowed,
    Fullscreen,
    KmsDrmConsole,
}

/// Texture filtering used when the UI is scaled.
#[derive(Debug, Clone, Copy, PartialEq, Eq, Default)]
pub enum UiScalingMode {
    #[default]
    Auto,
    Nearest,
    Linear,
}

/// Options of an interactive run.
#[derive(Debug, Clone, Copy, PartialEq, Eq, Default)]
pub struct RunOptions {
    pub video_mode: VideoMode,
}

/// A capture region in window pixels.
#[derive(Debug, Clone, Copy, PartialEq, Eq)]
pub struct CaptureRect {
    pub x: u32,
    pub y: u32,
    pub width: u32,
    pub height: u32,
}

/// Extra pixels kept around a capture region.
#[derive(Debug, Clone, Copy, PartialEq, Eq)]
pub struct CapturePadding {
    pub left: u32,
    pub top: u32,
    pub right: u32,
    pub bottom: u32,
}

} // verus!
