//! MIDI effects that sit in the per-track input and output FX racks.
//!
//! Every effect exposes a short list of inline parameters. Each parameter steps through a
//! fixed list of choices; stepping past either end stays at that end.
use vstd::prelude::*;
use crate::text::{decimal, decimal_string};
use crate::timeline::max_int;

verus! {

/// Number of slots in each FX rack.
pub const MIDI_FX_SLOT_COUNT: usize = 4;

/// Number of effect kinds.
pub const FX_KIND_COUNT: usize = 10;

/// Ticks per quarter note used to name musical lengths.
pub const PPQN: u32 = 960;

#[derive(Debug, Clone, Copy, PartialEq, Eq, Structural)]
pub enum MidiFxKind {
    Arp,
    NoteFilter,
    Transpose,
    Velocity,
    Duration,
    ScaleFilter,
    ScaleQuantize,
    ChordQuantize,
    Delay,
    TrackClone,
}

impl MidiFxKind {
    /// Position of the kind in the kind cycle.
    pub open spec fn spec_index(self) -> nat {
        match self {
            MidiFxKind::Arp => 0,
            MidiFxKind::NoteFilter => 1,
            MidiFxKind::Transpose => 2,
            MidiFxKind::Velocity => 3,
            MidiFxKind::Duration => 4,
            MidiFxKind::ScaleFilter => 5,
            MidiFxKind::ScaleQuantize => 6,
            MidiFxKind::ChordQuantize => 7,
            MidiFxKind::Delay => 8,
            MidiFxKind::TrackClone => 9,
        }
    }

    /// The kind at a position of the kind cycle.
    pub open spec fn spec_from_index(i: nat) -> MidiFxKind {
        if i == 0 { MidiFxKind::Arp }
        else if i == 1 { MidiFxKind::NoteFilter }
        else if i == 2 { MidiFxKind::Transpose }
        else if i == 3 { MidiFxKind::Velocity }
        else if i == 4 { MidiFxKind::Duration }
        else if i == 5 { MidiFxKind::ScaleFilter }
        else if i == 6 { MidiFxKind::ScaleQuantize }
        else if i == 7 { MidiFxKind::ChordQuantize }
        else if i == 8 { MidiFxKind::Delay }
        else { MidiFxKind::TrackClone }
    }

    pub fn index(&self) -> (r: usize)
        ensures
            r == self.spec_index(),
            r < FX_KIND_COUNT,
    {
        match self {
            MidiFxKind::Arp => 0,
            MidiFxKind::NoteFilter => 1,
            MidiFxKind::Transpose => 2,
            MidiFxKind::Velocity => 3,
            MidiFxKind::Duration => 4,
            MidiFxKind::ScaleFilter => 5,
            MidiFxKind::ScaleQuantize => 6,
            MidiFxKind::ChordQuantize => 7,
            MidiFxKind::Delay => 8,
            MidiFxKind::TrackClone => 9,
        }
    }

    pub fn from_index(i: usize) -> (r: MidiFxKind)
        requires
            i < FX_KIND_COUNT,
        ensures
            r == MidiFxKind::spec_from_index(i as nat),
            r.spec_index() == i,
    {
        if i == 0 { MidiFxKind::Arp }
        else if i == 1 { MidiFxKind::NoteFilter }
        else if i == 2 { MidiFxKind::Transpose }
        else if i == 3 { MidiFxKind::Velocity }
        else if i == 4 { MidiFxKind::Duration }
        else if i == 5 { MidiFxKind::ScaleFilter }
        else if i == 6 { MidiFxKind::ScaleQuantize }
        else if i == 7 { MidiFxKind::ChordQuantize }
        else if i == 8 { MidiFxKind::Delay }
        else { MidiFxKind::TrackClone }
    }

    /// Every kind, in cycle order.
    pub fn all() -> (r: Vec<MidiFxKind>)
        ensures
            r@.len() == FX_KIND_COUNT,
            forall|i: int| 0 <= i < FX_KIND_COUNT ==> (#[trigger] r@[i]).spec_index() == i,
    {
        let mut r: Vec<MidiFxKind> = Vec::new();
        let mut i: usize = 0;
        while i < FX_KIND_COUNT
            invariant
                i <= FX_KIND_COUNT,
                r@.len() == i,
                forall|j: int| 0 <= j < i ==> (#[trigger] r@[j]).spec_index() == j,
            decreases FX_KIND_COUNT - i,
        {
            r.push(MidiFxKind::from_index(i));
            i = i + 1;
        }
        r
    }

    /// Full name.
    pub fn label(&self) -> (r: &'static str)
        ensures
            r@ == self.spec_label(),
    {
        match self {
            MidiFxKind::Arp => "Arp",
            MidiFxKind::NoteFilter => "Note Filter",
            MidiFxKind::Transpose => "Transpose",
            MidiFxKind::Velocity => "Velocity",
            MidiFxKind::Duration => "Duration",
            MidiFxKind::ScaleFilter => "Scale Filter",
            MidiFxKind::ScaleQuantize => "Scale Quantize",
            MidiFxKind::ChordQuantize => "Chord Quantize",
            MidiFxKind::Delay => "Delay",
            MidiFxKind::TrackClone => "Track Clone",
        }
    }

    pub open spec fn spec_label(self) -> Seq<char> {
        match self {
            MidiFxKind::Arp => "Arp"@,
            MidiFxKind::NoteFilter => "Note Filter"@,
            MidiFxKind::Transpose => "Transpose"@,
            MidiFxKind::Velocity => "Velocity"@,
            MidiFxKind::Duration => "Duration"@,
            MidiFxKind::ScaleFilter => "Scale Filter"@,
            MidiFxKind::ScaleQuantize => "Scale Quantize"@,
            MidiFxKind::ChordQuantize => "Chord Quantize"@,
            MidiFxKind::Delay => "Delay"@,
            MidiFxKind::TrackClone => "Track Clone"@,
        }
    }

    /// Three-letter name.
    pub fn short_label(&self) -> (r: &'static str)
        ensures
            r@ == self.spec_short_label(),
    {
        match self {
            MidiFxKind::Arp => "ARP",
            MidiFxKind::NoteFilter => "NFL",
            MidiFxKind::Transpose => "TRN",
            MidiFxKind::Velocity => "VEL",
            MidiFxKind::Duration => "DUR",
            MidiFxKind::ScaleFilter => "SFL",
            MidiFxKind::ScaleQuantize => "SQT",
            MidiFxKind::ChordQuantize => "CQT",
            MidiFxKind::Delay => "DLY",
            MidiFxKind::TrackClone => "CLN",
        }
    }

    pub open spec fn spec_short_label(self) -> Seq<char> {
        match self {
            MidiFxKind::Arp => "ARP"@,
            MidiFxKind::NoteFilter => "NFL"@,
            MidiFxKind::Transpose => "TRN"@,
            MidiFxKind::Velocity => "VEL"@,
            MidiFxKind::Duration => "DUR"@,
            MidiFxKind::ScaleFilter => "SFL"@,
            MidiFxKind::ScaleQuantize => "SQT"@,
            MidiFxKind::ChordQuantize => "CQT"@,
            MidiFxKind::Delay => "DLY"@,
            MidiFxKind::TrackClone => "CLN"@,
        }
    }

    /// Two-letter code.
    pub fn compact_label(&self) -> (r: &'static str)
        ensures
            r@ == self.spec_compact_label(),
    {
        match self {
            MidiFxKind::Arp => "AR",
            MidiFxKind::NoteFilter => "NF",
            MidiFxKind::Transpose => "TR",
            MidiFxKind::Velocity => "VE",
            MidiFxKind::Duration => "DU",
            MidiFxKind::ScaleFilter => "SF",
            MidiFxKind::ScaleQuantize => "SQ",
            MidiFxKind::ChordQuantize => "CQ",
            MidiFxKind::Delay => "DL",
            MidiFxKind::TrackClone => "TC",
        }
    }

    pub open spec fn spec_compact_label(self) -> Seq<char> {
        match self {
            MidiFxKind::Arp => "AR"@,
            MidiFxKind::NoteFilter => "NF"@,
            MidiFxKind::Transpose => "TR"@,
            MidiFxKind::Velocity => "VE"@,
            MidiFxKind::Duration => "DU"@,
            MidiFxKind::ScaleFilter => "SF"@,
            MidiFxKind::ScaleQuantize => "SQ"@,
            MidiFxKind::ChordQuantize => "CQ"@,
            MidiFxKind::Delay => "DL"@,
            MidiFxKind::TrackClone => "TC"@,
        }
    }
}

/// Note order of the arpeggiator.
#[derive(Debug, Clone, Copy, PartialEq, Eq, Structural)]
pub enum ArpOrder {
    Up,
    Down,
    UpDown,
    Random,
}

/// Whether a harmony effect follows its own root or the shared harmony root.
#[derive(Debug, Clone, Copy, PartialEq, Eq, Structural)]
pub enum HarmonyTarget {
    Local,
    Global,
}

/// A configured MIDI effect.
#[derive(Debug, Clone, Copy, PartialEq, Eq, Structural)]
pub enum MidiFx {
    Arp { step_ticks: u32, order: ArpOrder, gate_percent: u8 },
    NoteFilter { low: u8, high: u8 },
    Transpose { semitones: i8 },
    Velocity { offset: i8 },
    Duration { length_ticks: u32 },
    ScaleFilter { root: u8, target: HarmonyTarget },
    ScaleQuantize { root: u8, target: HarmonyTarget },
    ChordQuantize { root: u8, target: HarmonyTarget },
    Delay { delay_ticks: u32 },
    TrackClone { source_track: usize },
}

/// One effect slot of a rack: the effect and whether it is active or bypassed.
#[derive(Debug, Clone, Copy, PartialEq, Eq, Structural)]
pub struct MidiFxSlot {
    pub enabled: bool,
    pub effect: MidiFx,
}

/// A parameter as shown inline on the timeline.
#[derive(Debug, Clone, PartialEq, Eq)]
pub struct MidiFxInlineParam {
    pub label: &'static str,
    pub value: String,
}

/// Musical lengths an arpeggiator step can take, in ticks at `PPQN`.
pub open spec fn musical_step(i: int) -> u32 {
    if i <= 0 { 120 } else if i == 1 { 240 } else if i == 2 { 480 } else if i == 3 { 960 }
    else if i == 4 { 1920 } else if i == 5 { 3840 } else { 7680 }
}

/// Number of musical step lengths.
pub const MUSICAL_STEP_COUNT: u32 = 7;

/// Position of a tick length among the musical step lengths (the largest not above it).
pub open spec fn musical_step_index(ticks: u32) -> int {
    if ticks >= 7680 { 6 } else if ticks >= 3840 { 5 } else if ticks >= 1920 { 4 }
    else if ticks >= 960 { 3 } else if ticks >= 480 { 2 } else if ticks >= 240 { 1 } else { 0 }
}

/// A length that is either off (zero) or a musical step length.
pub open spec fn optional_step_index(ticks: u32) -> int {
    if ticks == 0 { 0 } else { musical_step_index(ticks) + 1 }
}

pub open spec fn optional_step(i: int) -> u32 {
    if i <= 0 { 0 } else { musical_step(i - 1) }
}

/// `value` moved one step in the direction of `delta` inside `[lo, hi]`.
pub open spec fn step_clamped(value: int, delta: int, lo: int, hi: int) -> int {
    let moved = if delta > 0 { value + 1 } else if delta < 0 { value - 1 } else { value };
    if moved < lo { lo } else if moved > hi { hi } else { moved }
}

pub open spec fn order_index(o: ArpOrder) -> int {
    match o {
        ArpOrder::Up => 0,
        ArpOrder::Down => 1,
        ArpOrder::UpDown => 2,
        ArpOrder::Random => 3,
    }
}

pub open spec fn order_at(i: int) -> ArpOrder {
    if i <= 0 { ArpOrder::Up } else if i == 1 { ArpOrder::Down } else if i == 2 { ArpOrder::UpDown } else { ArpOrder::Random }
}

pub open spec fn target_at(i: int) -> HarmonyTarget {
    if i <= 0 { HarmonyTarget::Local } else { HarmonyTarget::Global }
}

pub open spec fn target_index(t: HarmonyTarget) -> int {
    match t {
        HarmonyTarget::Local => 0,
        HarmonyTarget::Global => 1,
    }
}

impl MidiFx {
    pub open spec fn spec_kind(self) -> MidiFxKind {
        match self {
            MidiFx::Arp { .. } => MidiFxKind::Arp,
            MidiFx::NoteFilter { .. } => MidiFxKind::NoteFilter,
            MidiFx::Transpose { .. } => MidiFxKind::Transpose,
            MidiFx::Velocity { .. } => MidiFxKind::Velocity,
            MidiFx::Duration { .. } => MidiFxKind::Duration,
            MidiFx::ScaleFilter { .. } => MidiFxKind::ScaleFilter,
            MidiFx::ScaleQuantize { .. } => MidiFxKind::ScaleQuantize,
            MidiFx::ChordQuantize { .. } => MidiFxKind::ChordQuantize,
            MidiFx::Delay { .. } => MidiFxKind::Delay,
            MidiFx::TrackClone { .. } => MidiFxKind::TrackClone,
        }
    }

    pub fn kind(&self) -> (r: MidiFxKind)
        ensures
            r == self.spec_kind(),
    {
        match self {
            MidiFx::Arp { .. } => MidiFxKind::Arp,
            MidiFx::NoteFilter { .. } => MidiFxKind::NoteFilter,
            MidiFx::Transpose { .. } => MidiFxKind::Transpose,
            MidiFx::Velocity { .. } => MidiFxKind::Velocity,
            MidiFx::Duration { .. } => MidiFxKind::Duration,
            MidiFx::ScaleFilter { .. } => MidiFxKind::ScaleFilter,
            MidiFx::ScaleQuantize { .. } => MidiFxKind::ScaleQuantize,
            MidiFx::ChordQuantize { .. } => MidiFxKind::ChordQuantize,
            MidiFx::Delay { .. } => MidiFxKind::Delay,
            MidiFx::TrackClone { .. } => MidiFxKind::TrackClone,
        }
    }

    /// The effect a newly chosen kind starts with.
    pub open spec fn spec_default_for_kind(kind: MidiFxKind) -> MidiFx {
        match kind {
            MidiFxKind::Arp => MidiFx::Arp { step_ticks: 240, order: ArpOrder::Up, gate_percent: 100 },
            MidiFxKind::NoteFilter => MidiFx::NoteFilter { low: 0, high: 127 },
            MidiFxKind::Transpose => MidiFx::Transpose { semitones: 0 },
            MidiFxKind::Velocity => MidiFx::Velocity { offset: 0 },
            MidiFxKind::Duration => MidiFx::Duration { length_ticks: 0 },
            MidiFxKind::ScaleFilter => MidiFx::ScaleFilter { root: 0, target: HarmonyTarget::Local },
            MidiFxKind::ScaleQuantize => MidiFx::ScaleQuantize { root: 0, target: HarmonyTarget::Local },
            MidiFxKind::ChordQuantize => MidiFx::ChordQuantize { root: 0, target: HarmonyTarget::Local },
            MidiFxKind::Delay => MidiFx::Delay { delay_ticks: 0 },
            MidiFxKind::TrackClone => MidiFx::TrackClone { source_track: 0 },
        }
    }

    pub fn default_for_kind(kind: MidiFxKind) -> (r: MidiFx)
        ensures
            r == MidiFx::spec_default_for_kind(kind),
            r.spec_kind() == kind,
    {
        match kind {
            MidiFxKind::Arp => MidiFx::Arp { step_ticks: 240, order: ArpOrder::Up, gate_percent: 100 },
            MidiFxKind::NoteFilter => MidiFx::NoteFilter { low: 0, high: 127 },
            MidiFxKind::Transpose => MidiFx::Transpose { semitones: 0 },
            MidiFxKind::Velocity => MidiFx::Velocity { offset: 0 },
            MidiFxKind::Duration => MidiFx::Duration { length_ticks: 0 },
            MidiFxKind::ScaleFilter => MidiFx::ScaleFilter { root: 0, target: HarmonyTarget::Local },
            MidiFxKind::ScaleQuantize => MidiFx::ScaleQuantize { root: 0, target: HarmonyTarget::Local },
            MidiFxKind::ChordQuantize => MidiFx::ChordQuantize { root: 0, target: HarmonyTarget::Local },
            MidiFxKind::Delay => MidiFx::Delay { delay_ticks: 0 },
            MidiFxKind::TrackClone => MidiFx::TrackClone { source_track: 0 },
        }
    }

    /// Number of inline parameters of the effect.
    pub open spec fn spec_param_count(self) -> nat {
        match self {
            MidiFx::Arp { .. } => 3,
            MidiFx::NoteFilter { .. } => 2,
            MidiFx::ScaleFilter { .. } | MidiFx::ScaleQuantize { .. } | MidiFx::ChordQuantize { .. } => 2,
            _ => 1,
        }
    }

    pub fn inline_parameter_count(&self) -> (r: usize)
        ensures
            r == self.spec_param_count(),
            1 <= r <= 3,
    {
        match self {
            MidiFx::Arp { .. } => 3,
            MidiFx::NoteFilter { .. } => 2,
            MidiFx::ScaleFilter { .. } | MidiFx::ScaleQuantize { .. } | MidiFx::ChordQuantize { .. } => 2,
            _ => 1,
        }
    }

    /// The effect after stepping inline parameter `index` once in the direction of `delta`.
    /// Track-clone sources range over the project's `track_count` tracks.
    pub open spec fn spec_adjusted(self, index: nat, delta: int, track_count: nat) -> MidiFx {
        match self {
            MidiFx::Arp { step_ticks, order, gate_percent } => if index == 0 {
                MidiFx::Arp { step_ticks: musical_step(step_clamped(musical_step_index(step_ticks), delta, 0, 6)), order, gate_percent }
            } else if index == 1 {
                MidiFx::Arp { step_ticks, order: order_at(step_clamped(order_index(order), delta, 0, 3)), gate_percent }
            } else if index == 2 {
                MidiFx::Arp { step_ticks, order, gate_percent: (step_clamped((gate_percent / 10) as int, delta, 1, 10) * 10) as u8 }
            } else {
                self
            },
            MidiFx::NoteFilter { low, high } => if index == 0 {
                MidiFx::NoteFilter { low: step_clamped(low as int, delta, 0, high as int) as u8, high }
            } else if index == 1 {
                MidiFx::NoteFilter { low, high: step_clamped(high as int, delta, low as int, max_int(low as int, 127)) as u8 }
            } else {
                self
            },
            MidiFx::Transpose { semitones } => if index == 0 {
                MidiFx::Transpose { semitones: step_clamped(semitones as int, delta, -24, 24) as i8 }
            } else {
                self
            },
            MidiFx::Velocity { offset } => if index == 0 {
                MidiFx::Velocity { offset: step_clamped(offset as int, delta, -15, 15) as i8 }
            } else {
                self
            },
            MidiFx::Duration { length_ticks } => if index == 0 {
                MidiFx::Duration { length_ticks: optional_step(step_clamped(optional_step_index(length_ticks), delta, 0, 7)) }
            } else {
                self
            },
            MidiFx::ScaleFilter { root, target } => if index == 0 {
                MidiFx::ScaleFilter { root: step_clamped(root as int, delta, 0, 11) as u8, target }
            } else if index == 1 {
                MidiFx::ScaleFilter { root, target: target_at(step_clamped(target_index(target), delta, 0, 1)) }
            } else {
                self
            },
            MidiFx::ScaleQuantize { root, target } => if index == 0 {
                MidiFx::ScaleQuantize { root: step_clamped(root as int, delta, 0, 11) as u8, target }
            } else if index == 1 {
                MidiFx::ScaleQuantize { root, target: target_at(step_clamped(target_index(target), delta, 0, 1)) }
            } else {
                self
            },
            MidiFx::ChordQuantize { root, target } => if index == 0 {
                MidiFx::ChordQuantize { root: step_clamped(root as int, delta, 0, 11) as u8, target }
            } else if index == 1 {
                MidiFx::ChordQuantize { root, target: target_at(step_clamped(target_index(target), delta, 0, 1)) }
            } else {
                self
            },
            MidiFx::Delay { delay_ticks } => if index == 0 {
                MidiFx::Delay { delay_ticks: optional_step(step_clamped(optional_step_index(delay_ticks), delta, 0, 7)) }
            } else {
                self
            },
            MidiFx::TrackClone { source_track } => if index == 0 {
                MidiFx::TrackClone {
                    source_track: step_clamped(source_track as int, delta, 0, if track_count == 0 { 0 } else { track_count - 1 }) as usize,
                }
            } else {
                self
            },
        }
    }
}

fn step_u32(value: u32, delta: i32, lo: u32, hi: u32) -> (r: u32)
    requires
        lo <= hi,
    ensures
        r == step_clamped(value as int, delta as int, lo as int, hi as int),
{
    let moved: i64 = if delta > 0 {
        value as i64 + 1
    } else if delta < 0 {
        value as i64 - 1
    } else {
        value as i64
    };
    if moved < lo as i64 {
        lo
    } else if moved > hi as i64 {
        hi
    } else {
        moved as u32
    }
}

fn step_usize(value: usize, delta: i32, hi: usize) -> (r: usize)
    ensures
        r == step_clamped(value as int, delta as int, 0, hi as int),
{
    if delta > 0 {
        if value >= hi { hi } else { value + 1 }
    } else if delta < 0 {
        if value == 0 { 0 } else if value - 1 > hi { hi } else { value - 1 }
    } else {
        if value > hi { hi } else { value }
    }
}

fn step_i32(value: i32, delta: i32, lo: i32, hi: i32) -> (r: i32)
    requires
        lo <= hi,
    ensures
        r == step_clamped(value as int, delta as int, lo as int, hi as int),
{
    let moved: i64 = if delta > 0 {
        value as i64 + 1
    } else if delta < 0 {
        value as i64 - 1
    } else {
        value as i64
    };
    if moved < lo as i64 {
        lo
    } else if moved > hi as i64 {
        hi
    } else {
        moved as i32
    }
}

fn musical_step_of(i: u32) -> (r: u32)
    ensures
        r == musical_step(i as int),
{
    if i == 0 { 120 } else if i == 1 { 240 } else if i == 2 { 480 } else if i == 3 { 960 }
    else if i == 4 { 1920 } else if i == 5 { 3840 } else { 7680 }
}

fn musical_step_index_of(ticks: u32) -> (r: u32)
    ensures
        r == musical_step_index(ticks),
        r <= 6,
{
    if ticks >= 7680 { 6 } else if ticks >= 3840 { 5 } else if ticks >= 1920 { 4 }
    else if ticks >= 960 { 3 } else if ticks >= 480 { 2 } else if ticks >= 240 { 1 } else { 0 }
}

fn optional_step_of(i: u32) -> (r: u32)
    ensures
        r == optional_step(i as int),
{
    if i == 0 { 0 } else { musical_step_of(i - 1) }
}

fn optional_step_index_of(ticks: u32) -> (r: u32)
    ensures
        r == optional_step_index(ticks),
        r <= 7,
{
    if ticks == 0 { 0 } else { musical_step_index_of(ticks) + 1 }
}

fn order_of(i: u32) -> (r: ArpOrder)
    ensures
        r == order_at(i as int),
{
    if i == 0 { ArpOrder::Up } else if i == 1 { ArpOrder::Down } else if i == 2 { ArpOrder::UpDown } else { ArpOrder::Random }
}

fn order_index_of(o: ArpOrder) -> (r: u32)
    ensures
        r == order_index(o),
{
    match o {
        ArpOrder::Up => 0,
        ArpOrder::Down => 1,
        ArpOrder::UpDown => 2,
        ArpOrder::Random => 3,
    }
}

fn stepped_target(t: HarmonyTarget, delta: i32) -> (r: HarmonyTarget)
    ensures
        r == target_at(step_clamped(target_index(t), delta as int, 0, 1)),
{
    let i: u32 = match t {
        HarmonyTarget::Local => 0,
        HarmonyTarget::Global => 1,
    };
    if step_u32(i, delta, 0, 1) == 0 {
        HarmonyTarget::Local
    } else {
        HarmonyTarget::Global
    }
}

impl MidiFx {
    /// Steps inline parameter `index` once in the direction of `delta`.
    pub fn adjust_inline_parameter(&mut self, index: usize, delta: i32, track_count: usize)
        ensures
            *final(self) == old(self).spec_adjusted(index as nat, delta as int, track_count as nat),
    {
        let last_track: usize = if track_count == 0 { 0 } else { track_count - 1 };
        let next = match *self {
            MidiFx::Arp { step_ticks, order, gate_percent } => if index == 0 {
                MidiFx::Arp { step_ticks: musical_step_of(step_u32(musical_step_index_of(step_ticks), delta, 0, 6)), order, gate_percent }
            } else if index == 1 {
                MidiFx::Arp { step_ticks, order: order_of(step_u32(order_index_of(order), delta, 0, 3)), gate_percent }
            } else if index == 2 {
                MidiFx::Arp { step_ticks, order, gate_percent: (step_u32((gate_percent / 10) as u32, delta, 1, 10) * 10) as u8 }
            } else {
                *self
            },
            MidiFx::NoteFilter { low, high } => if index == 0 {
                MidiFx::NoteFilter { low: step_u32(low as u32, delta, 0, high as u32) as u8, high }
            } else if index == 1 {
                MidiFx::NoteFilter { low, high: step_u32(high as u32, delta, low as u32, if low > 127 { low as u32 } else { 127 }) as u8 }
            } else {
                *self
            },
            MidiFx::Transpose { semitones } => if index == 0 {
                MidiFx::Transpose { semitones: step_i32(semitones as i32, delta, -24, 24) as i8 }
            } else {
                *self
            },
            MidiFx::Velocity { offset } => if index == 0 {
                MidiFx::Velocity { offset: step_i32(offset as i32, delta, -15, 15) as i8 }
            } else {
                *self
            },
            MidiFx::Duration { length_ticks } => if index == 0 {
                MidiFx::Duration { length_ticks: optional_step_of(step_u32(optional_step_index_of(length_ticks), delta, 0, 7)) }
            } else {
                *self
            },
            MidiFx::ScaleFilter { root, target } => if index == 0 {
                MidiFx::ScaleFilter { root: step_u32(root as u32, delta, 0, 11) as u8, target }
            } else if index == 1 {
                MidiFx::ScaleFilter { root, target: stepped_target(target, delta) }
            } else {
                *self
            },
            MidiFx::ScaleQuantize { root, target } => if index == 0 {
                MidiFx::ScaleQuantize { root: step_u32(root as u32, delta, 0, 11) as u8, target }
            } else if index == 1 {
                MidiFx::ScaleQuantize { root, target: stepped_target(target, delta) }
            } else {
                *self
            },
            MidiFx::ChordQuantize { root, target } => if index == 0 {
                MidiFx::ChordQuantize { root: step_u32(root as u32, delta, 0, 11) as u8, target }
            } else if index == 1 {
                MidiFx::ChordQuantize { root, target: stepped_target(target, delta) }
            } else {
                *self
            },
            MidiFx::Delay { delay_ticks } => if index == 0 {
                MidiFx::Delay { delay_ticks: optional_step_of(step_u32(optional_step_index_of(delay_ticks), delta, 0, 7)) }
            } else {
                *self
            },
            MidiFx::TrackClone { source_track } => if index == 0 {
                MidiFx::TrackClone { source_track: step_usize(source_track, delta, last_track) }
            } else {
                *self
            },
        };
        *self = next;
    }
}

/// Name of a musical step length by position.
pub open spec fn step_label(i: int) -> Seq<char> {
    if i <= 0 { "1/32"@ } else if i == 1 { "1/16"@ } else if i == 2 { "1/8"@ } else if i == 3 { "1/4"@ }
    else if i == 4 { "1/2"@ } else if i == 5 { "1/1"@ } else { "2/1"@ }
}

/// Name of a pitch class.
pub open spec fn root_label(root: int) -> Seq<char> {
    if root <= 0 { "C"@ } else if root == 1 { "C#"@ } else if root == 2 { "D"@ } else if root == 3 { "D#"@ }
    else if root == 4 { "E"@ } else if root == 5 { "F"@ } else if root == 6 { "F#"@ } else if root == 7 { "G"@ }
    else if root == 8 { "G#"@ } else if root == 9 { "A"@ } else if root == 10 { "A#"@ } else { "B"@ }
}

pub open spec fn order_label(o: ArpOrder) -> Seq<char> {
    match o {
        ArpOrder::Up => "Up"@,
        ArpOrder::Down => "Down"@,
        ArpOrder::UpDown => "UpDn"@,
        ArpOrder::Random => "Rand"@,
    }
}

pub open spec fn target_label(t: HarmonyTarget) -> Seq<char> {
    match t {
        HarmonyTarget::Local => "Loc"@,
        HarmonyTarget::Global => "Gbl"@,
    }
}

/// Signed decimal notation: `0`, `+n` or `-n`.
pub open spec fn signed_decimal(v: int) -> Seq<char> {
    if v == 0 {
        "0"@
    } else if v > 0 {
        "+"@ + decimal(v as nat)
    } else {
        "-"@ + decimal((-v) as nat)
    }
}

/// A length that may be off.
pub open spec fn optional_step_label(ticks: u32) -> Seq<char> {
    if ticks == 0 { "Off"@ } else { step_label(musical_step_index(ticks)) }
}

/// Label of inline parameter `i` of an effect of the given kind.
pub open spec fn spec_param_label(kind: MidiFxKind, i: int) -> Seq<char> {
    match kind {
        MidiFxKind::Arp => if i == 0 { "Rate"@ } else if i == 1 { "Order"@ } else { "Gate"@ },
        MidiFxKind::NoteFilter => if i == 0 { "Low"@ } else { "High"@ },
        MidiFxKind::Transpose => "Semi"@,
        MidiFxKind::Velocity => "Vel"@,
        MidiFxKind::Duration => "Len"@,
        MidiFxKind::ScaleFilter | MidiFxKind::ScaleQuantize | MidiFxKind::ChordQuantize => if i == 0 { "Root"@ } else { "Tgt"@ },
        MidiFxKind::Delay => "Time"@,
        MidiFxKind::TrackClone => "Src"@,
    }
}

/// Shown value of inline parameter `i`.
pub open spec fn spec_param_value(fx: MidiFx, i: int) -> Seq<char> {
    match fx {
        MidiFx::Arp { step_ticks, order, gate_percent } => if i == 0 {
            step_label(musical_step_index(step_ticks))
        } else if i == 1 {
            order_label(order)
        } else {
            decimal(gate_percent as nat) + "%"@
        },
        MidiFx::NoteFilter { low, high } => if i == 0 { decimal(low as nat) } else { decimal(high as nat) },
        MidiFx::Transpose { semitones } => signed_decimal(semitones as int),
        MidiFx::Velocity { offset } => signed_decimal(offset as int),
        MidiFx::Duration { length_ticks } => optional_step_label(length_ticks),
        MidiFx::ScaleFilter { root, target } | MidiFx::ScaleQuantize { root, target } | MidiFx::ChordQuantize { root, target } =>
            if i == 0 { root_label(root as int) } else { target_label(target) },
        MidiFx::Delay { delay_ticks } => optional_step_label(delay_ticks),
        MidiFx::TrackClone { source_track } => "T"@ + decimal(if source_track < usize::MAX { source_track as nat + 1 } else { source_track as nat }),
    }
}

fn step_label_str(i: u32) -> (r: &'static str)
    ensures
        r@ == step_label(i as int),
{
    if i == 0 { "1/32" } else if i == 1 { "1/16" } else if i == 2 { "1/8" } else if i == 3 { "1/4" }
    else if i == 4 { "1/2" } else if i == 5 { "1/1" } else { "2/1" }
}

fn root_label_str(root: u8) -> (r: &'static str)
    ensures
        r@ == root_label(root as int),
{
    if root == 0 { "C" } else if root == 1 { "C#" } else if root == 2 { "D" } else if root == 3 { "D#" }
    else if root == 4 { "E" } else if root == 5 { "F" } else if root == 6 { "F#" } else if root == 7 { "G" }
    else if root == 8 { "G#" } else if root == 9 { "A" } else if root == 10 { "A#" } else { "B" }
}

fn signed_string(v: i32) -> (r: String)
    ensures
        r@ == signed_decimal(v as int),
{
    if v == 0 {
        String::from_str("0")
    } else if v > 0 {
        let mut s = String::from_str("+");
        s.append(decimal_string(v as u64).as_str());
        s
    } else {
        let mut s = String::from_str("-");
        let magnitude: i64 = -(v as i64);
        s.append(decimal_string(magnitude as u64).as_str());
        s
    }
}

fn optional_step_string(ticks: u32) -> (r: String)
    ensures
        r@ == optional_step_label(ticks),
{
    if ticks == 0 {
        String::from_str("Off")
    } else {
        String::from_str(step_label_str(musical_step_index_of(ticks)))
    }
}

fn param(label: &'static str, value: String) -> (r: MidiFxInlineParam)
    ensures
        r.label == label,
        r.value == value,
{
    MidiFxInlineParam { label, value }
}

impl MidiFx {
    /// The inline parameters, in display order.
    pub fn inline_parameters(&self) -> (r: Vec<MidiFxInlineParam>)
        ensures
            r@.len() == self.spec_param_count(),
            forall|i: int| 0 <= i < r@.len() ==> {
                &&& (#[trigger] r@[i]).label@ == spec_param_label(self.spec_kind(), i)
                &&& r@[i].value@ == spec_param_value(*self, i)
            },
    {
        let mut r: Vec<MidiFxInlineParam> = Vec::new();
        match *self {
            MidiFx::Arp { step_ticks, order, gate_percent } => {
                r.push(param("Rate", String::from_str(step_label_str(musical_step_index_of(step_ticks)))));
                let order_text = match order {
                    ArpOrder::Up => "Up",
                    ArpOrder::Down => "Down",
                    ArpOrder::UpDown => "UpDn",
                    ArpOrder::Random => "Rand",
                };
                r.push(param("Order", String::from_str(order_text)));
                let mut gate = decimal_string(gate_percent as u64);
                gate.append("%");
                r.push(param("Gate", gate));
            },
            MidiFx::NoteFilter { low, high } => {
                r.push(param("Low", decimal_string(low as u64)));
                r.push(param("High", decimal_string(high as u64)));
            },
            MidiFx::Transpose { semitones } => {
                r.push(param("Semi", signed_string(semitones as i32)));
            },
            MidiFx::Velocity { offset } => {
                r.push(param("Vel", signed_string(offset as i32)));
            },
            MidiFx::Duration { length_ticks } => {
                r.push(param("Len", optional_step_string(length_ticks)));
            },
            MidiFx::ScaleFilter { root, target } | MidiFx::ScaleQuantize { root, target } | MidiFx::ChordQuantize { root, target } => {
                r.push(param("Root", String::from_str(root_label_str(root))));
                let target_text = match target {
                    HarmonyTarget::Local => "Loc",
                    HarmonyTarget::Global => "Gbl",
                };
                r.push(param("Tgt", String::from_str(target_text)));
            },
            MidiFx::Delay { delay_ticks } => {
                r.push(param("Time", optional_step_string(delay_ticks)));
            },
            MidiFx::TrackClone { source_track } => {
                let mut src = String::from_str("T");
                if source_track < usize::MAX {
                    src.append(decimal_string((source_track + 1) as u64).as_str());
                } else {
                    src.append(decimal_string(source_track as u64).as_str());
                }
                r.push(param("Src", src));
            },
        }
        r
    }
}

/// Stepping one inline parameter leaves the shown values of the other parameters unchanged.
pub proof fn lemma_adjust_keeps_other_parameters(fx: MidiFx, index: nat, delta: int, track_count: nat, other: int)
    requires
        0 <= other < fx.spec_param_count(),
        other != index,
    ensures
        spec_param_value(fx.spec_adjusted(index, delta, track_count), other) == spec_param_value(fx, other),
        fx.spec_adjusted(index, delta, track_count).spec_kind() == fx.spec_kind(),
{
}

impl MidiFxSlot {
    pub open spec fn spec_default() -> MidiFxSlot {
        MidiFxSlot { enabled: true, effect: MidiFx::Transpose { semitones: 0 } }
    }

    /// The slot a new rack entry gets: an enabled transpose.
    pub fn default() -> (r: MidiFxSlot)
        ensures
            r == MidiFxSlot::spec_default(),
    {
        MidiFxSlot { enabled: true, effect: MidiFx::Transpose { semitones: 0 } }
    }
}

/// Position `delta` steps away in a cycle of `count` positions.
pub open spec fn cycle_position(index: int, delta: int, count: int) -> int {
    (index + delta) % count
}

/// The slot after switching an existing effect to the kind `delta` steps away in the kind
/// cycle; the bypass state is kept and the new effect starts from its defaults.
pub open spec fn spec_cycle_existing(slot: MidiFxSlot, delta: int) -> MidiFxSlot {
    let step = if delta > 0 { 1int } else if delta < 0 { -1int } else { 0int };
    MidiFxSlot {
        enabled: slot.enabled,
        effect: MidiFx::spec_default_for_kind(
            MidiFxKind::spec_from_index(cycle_position(slot.effect.spec_kind().spec_index() as int, step, FX_KIND_COUNT as int) as nat),
        ),
    }
}

/// Switches an existing effect to the neighbouring kind; the slot never becomes empty.
pub fn cycle_existing_fx_kind(slot: &MidiFxSlot, delta: i32) -> (r: MidiFxSlot)
    ensures
        r == spec_cycle_existing(*slot, delta as int),
{
    let index = slot.effect.kind().index();
    let next: usize = if delta > 0 {
        (index + 1) % FX_KIND_COUNT
    } else if delta < 0 {
        (index + FX_KIND_COUNT - 1) % FX_KIND_COUNT
    } else {
        index
    };
    proof {
        let step = if delta > 0 { 1int } else if delta < 0 { -1int } else { 0int };
        if delta < 0 {
            vstd::arithmetic::div_mod::lemma_mod_add_multiples_vanish(index as int - 1, FX_KIND_COUNT as int);
        }
        if delta == 0 {
            vstd::arithmetic::div_mod::lemma_small_mod(index as nat, FX_KIND_COUNT as nat);
        }
        assert(next == cycle_position(index as int, step, FX_KIND_COUNT as int));
    }
    MidiFxSlot { enabled: slot.enabled, effect: MidiFx::default_for_kind(MidiFxKind::from_index(next)) }
}

/// What an empty slot becomes when its kind is stepped: the first kind forward, the last kind
/// backward; a zero step leaves it empty.
pub open spec fn spec_fill_empty(delta: int) -> Option<MidiFxSlot> {
    if delta > 0 {
        Some(MidiFxSlot { enabled: true, effect: MidiFx::spec_default_for_kind(MidiFxKind::Arp) })
    } else if delta < 0 {
        Some(MidiFxSlot { enabled: true, effect: MidiFx::spec_default_for_kind(MidiFxKind::TrackClone) })
    } else {
        None
    }
}

/// Steps the kind of an empty slot.
pub fn cycle_fx_kind(delta: i32) -> (r: Option<MidiFxSlot>)
    ensures
        r == spec_fill_empty(delta as int),
{
    if delta > 0 {
        Some(MidiFxSlot { enabled: true, effect: MidiFx::default_for_kind(MidiFxKind::Arp) })
    } else if delta < 0 {
        Some(MidiFxSlot { enabled: true, effect: MidiFx::default_for_kind(MidiFxKind::TrackClone) })
    } else {
        None
    }
}

/// Cycling the kind forward and then back restores the kind.
pub proof fn lemma_cycle_kind_round_trip(slot: MidiFxSlot)
    ensures
        spec_cycle_existing(spec_cycle_existing(slot, 1), -1).effect.spec_kind() == slot.effect.spec_kind(),
        spec_cycle_existing(spec_cycle_existing(slot, 1), -1).enabled == slot.enabled,
{
    let i = slot.effect.spec_kind().spec_index() as int;
    let j = cycle_position(i, 1, 10);
    vstd::arithmetic::div_mod::lemma_mod_bound(i + 1, 10);
    assert(0 <= j < 10);
    let k = cycle_position(j, -1, 10);
    if i == 9 {
        assert(j == 0) by { vstd::arithmetic::div_mod::lemma_fundamental_div_mod_converse(10, 10, 1, 0); }
        assert(k == 9) by { vstd::arithmetic::div_mod::lemma_fundamental_div_mod_converse(-1, 10, -1, 9); }
    } else {
        assert(j == i + 1) by { vstd::arithmetic::div_mod::lemma_small_mod((i + 1) as nat, 10); }
        assert(k == i) by { vstd::arithmetic::div_mod::lemma_small_mod(i as nat, 10); }
    }
    assert(MidiFx::spec_default_for_kind(MidiFxKind::spec_from_index(j as nat)).spec_kind() == MidiFxKind::spec_from_index(j as nat));
}

} // verus!
