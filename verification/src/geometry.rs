//! Screen rectangles and colours used by the timeline layout.
//!
//! `Rect` follows the clamping rules of SDL rectangles: positions stay within
//! `[MIN_INT_VALUE, MAX_INT_VALUE]` and sizes within `[1, MAX_INT_VALUE]`, so the
//! right and bottom edges of a well-formed rectangle never overflow an `i32`.
use vstd::prelude::*;

verus! {

/// Largest position or size a rectangle may hold (`i32::MAX / 2`).
pub const MAX_INT_VALUE: i32 = 1073741823;

/// Smallest position a rectangle may hold (`i32::MIN / 2`).
pub const MIN_INT_VALUE: i32 = -1073741824;

/// Clamped size of a rectangle side: zero becomes one, large values stop at `MAX_INT_VALUE`.
pub open spec fn clamped_size(val: int) -> int {
    if val == 0 {
        1
    } else if val > MAX_INT_VALUE {
        MAX_INT_VALUE as int
    } else {
        val
    }
}

/// Clamped position of a rectangle corner.
pub open spec fn clamped_position(val: int) -> int {
    if val > MAX_INT_VALUE {
        MAX_INT_VALUE as int
    } else if val < MIN_INT_VALUE {
        MIN_INT_VALUE as int
    } else {
        val
    }
}

fn clamp_size(val: u32) -> (r: u32)
    ensures
        r == clamped_size(val as int),
{
    if val == 0 {
        1
    } else if val > 1073741823u32 {
        1073741823u32
    } else {
        val
    }
}

fn clamp_position(val: i32) -> (r: i32)
    ensures
        r == clamped_position(val as int),
{
    if val > MAX_INT_VALUE {
        MAX_INT_VALUE
    } else if val < MIN_INT_VALUE {
        MIN_INT_VALUE
    } else {
        val
    }
}

/// An axis-aligned, never empty screen rectangle.
#[derive(Debug, Clone, Copy, PartialEq, Eq, Structural)]
pub struct Rect {
    pub x: i32,
    pub y: i32,
    pub w: u32,
    pub h: u32,
}

impl Rect {
    /// Positions and sizes lie in the clamped ranges.
    pub open spec fn wf(self) -> bool {
        &&& MIN_INT_VALUE <= self.x <= MAX_INT_VALUE
        &&& MIN_INT_VALUE <= self.y <= MAX_INT_VALUE
        &&& 1 <= self.w <= MAX_INT_VALUE
        &&& 1 <= self.h <= MAX_INT_VALUE
    }

    pub open spec fn spec_right(self) -> int {
        self.x + self.w
    }

    pub open spec fn spec_bottom(self) -> int {
        self.y + self.h
    }

    /// The rectangle that `Rect::new(x, y, width, height)` builds.
    pub open spec fn made(x: int, y: int, width: int, height: int) -> Rect {
        Rect {
            x: clamped_position(x) as i32,
            y: clamped_position(y) as i32,
            w: clamped_size(width) as u32,
            h: clamped_size(height) as u32,
        }
    }

    /// Point `(px, py)` lies inside the rectangle (right and bottom edges excluded).
    pub open spec fn contains(self, px: int, py: int) -> bool {
        self.x <= px < self.spec_right() && self.y <= py < self.spec_bottom()
    }

    /// The two rectangles share at least one point.
    pub open spec fn overlaps(self, other: Rect) -> bool {
        &&& self.x < other.spec_right()
        &&& self.spec_right() > other.x
        &&& self.y < other.spec_bottom()
        &&& self.spec_bottom() > other.y
    }

    /// The rectangle lies within `outer`.
    pub open spec fn inside(self, outer: Rect) -> bool {
        &&& outer.x <= self.x
        &&& self.spec_right() <= outer.spec_right()
        &&& outer.y <= self.y
        &&& self.spec_bottom() <= outer.spec_bottom()
    }

    /// Builds a rectangle, clamping position and size into the supported ranges.
    pub fn new(x: i32, y: i32, width: u32, height: u32) -> (r: Rect)
        ensures
            r == Rect::made(x as int, y as int, width as int, height as int),
            r.wf(),
    {
        Rect { x: clamp_position(x), y: clamp_position(y), w: clamp_size(width), h: clamp_size(height) }
    }

    pub fn width(&self) -> (r: u32)
        ensures
            r == self.w,
    {
        self.w
    }

    pub fn height(&self) -> (r: u32)
        ensures
            r == self.h,
    {
        self.h
    }

    /// The x-position just past the right edge.
    pub fn right(&self) -> (r: i32)
        requires
            self.wf(),
        ensures
            r == self.spec_right(),
    {
        self.x + self.w as i32
    }

    /// The y-position just past the bottom edge.
    pub fn bottom(&self) -> (r: i32)
        requires
            self.wf(),
        ensures
            r == self.spec_bottom(),
    {
        self.y + self.h as i32
    }
}

/// Whether the point `(x, y)` lies inside `rect`.
pub fn rect_contains(rect: Rect, x: i32, y: i32) -> (r: bool)
    requires
        rect.wf(),
    ensures
        r == rect.contains(x as int, y as int),
{
    x >= rect.x && x < rect.right() && y >= rect.y && y < rect.bottom()
}

/// Whether two rectangles overlap.
pub fn rects_overlap(a: Rect, b: Rect) -> (r: bool)
    requires
        a.wf(),
        b.wf(),
    ensures
        r == a.overlaps(b),
{
    a.x < b.right() && a.right() > b.x && a.y < b.bottom() && a.bottom() > b.y
}

/// `Rect::made` of a non-negative size builds a well-formed rectangle.
pub proof fn lemma_made_wf(x: int, y: int, width: int, height: int)
    requires
        width >= 0,
        height >= 0,
    ensures
        Rect::made(x, y, width, height).wf(),
{
}

/// Overlap is symmetric.
pub proof fn lemma_overlap_symmetric(a: Rect, b: Rect)
    ensures
        a.overlaps(b) == b.overlaps(a),
{
}

/// A point inside two rectangles shows that they overlap.
pub proof fn lemma_shared_point_overlaps(a: Rect, b: Rect, px: int, py: int)
    requires
        a.contains(px, py),
        b.contains(px, py),
    ensures
        a.overlaps(b),
{
}

/// An RGBA colour.
#[derive(Debug, Clone, Copy, PartialEq, Eq, Structural)]
pub struct Color {
    pub r: u8,
    pub g: u8,
    pub b: u8,
    pub a: u8,
}

impl Color {
    /// An opaque colour.
    pub fn rgb(r: u8, g: u8, b: u8) -> (c: Color)
        ensures
            c == (Color { r, g, b, a: 255 }),
    {
        Color { r, g, b, a: 255 }
    }
}

/// Colour of pixel `pixel_index` in a pattern that repeats `colors` in order.
pub fn interlaced_color_at(colors: &[Color], pixel_index: usize) -> (r: Option<Color>)
    ensures
        colors@.len() == 0 ==> r is None,
        colors@.len() > 0 ==> r == Some(colors@[(pixel_index as int) % (colors@.len() as int)]),
{
    if colors.len() == 0 {
        None
    } else {
        Some(colors[pixel_index % colors.len()])
    }
}

/// The interlaced pattern repeats with the period of the colour list.
pub proof fn lemma_interlaced_pattern_periodic(len: nat, pixel_index: nat)
    requires
        len > 0,
    ensures
        (pixel_index + len) % len == pixel_index % len,
{
    vstd::arithmetic::div_mod::lemma_mod_add_multiples_vanish(pixel_index as int, len as int);
}

} // verus!
