use vstd::prelude::*;

verus! {

/// Sub-pixel units in one pixel: positions are fixed-point values in millionths of a pixel.
pub const SUBPIXELS: i64 = 1_000_000;

/// An axis-aligned rectangle: top-left corner `(x, y)` and size `w` by `h`, in pixels.
#[derive(Clone, Copy, Debug, PartialEq, Eq, Structural)]
pub struct Rect {
    pub x: i64,
    pub y: i64,
    pub w: u32,
    pub h: u32,
}

/// Two non-empty rectangles share a region of positive area; touching edges do not count.
pub open spec fn overlaps(a: Rect, b: Rect) -> bool {
    &&& a.w > 0 && a.h > 0
    &&& b.w > 0 && b.h > 0
    &&& a.x < b.x + b.w
    &&& b.x < a.x + a.w
    &&& a.y < b.y + b.h
    &&& b.y < a.y + a.h
}

impl Rect {
    pub fn new(x: i64, y: i64, w: u32, h: u32) -> (r: Rect)
        ensures
            r == (Rect { x, y, w, h }),
    {
        Rect { x, y, w, h }
    }

    /// Whether the two rectangles intersect in a non-empty region.
    pub fn has_intersection(&self, other: &Rect) -> (r: bool)
        requires
            self.x + self.w <= i64::MAX,
            other.x + other.w <= i64::MAX,
            self.y + self.h <= i64::MAX,
            other.y + other.h <= i64::MAX,
        ensures
            r == overlaps(*self, *other),
    {
        self.w > 0 && self.h > 0 && other.w > 0 && other.h > 0
            && self.x < other.x + other.w as i64 && other.x < self.x + self.w as i64
            && self.y < other.y + other.h as i64 && other.y < self.y + self.h as i64
    }
}

/// A two-component vector in sub-pixel units (a position), or in sub-pixel
/// units per microsecond (a velocity).
#[derive(Clone, Copy, Debug, PartialEq, Eq, Structural)]
pub struct FVec {
    pub x: i64,
    pub y: i64,
}

impl FVec {
    pub fn zero() -> (r: FVec)
        ensures
            r.x == 0 && r.y == 0,
    {
        FVec { x: 0, y: 0 }
    }
}

/// The pixel that holds a sub-pixel coordinate: `floor(p / SUBPIXELS)`.
pub open spec fn pixel_of(p: int) -> int {
    p / (SUBPIXELS as int)
}

/// Converts a sub-pixel coordinate to the pixel that holds it, rounding down.
pub fn to_pixel(p: i64) -> (r: i64)
    ensures
        r == pixel_of(p as int),
{
    let q: i64 = p / SUBPIXELS;
    if p % SUBPIXELS < 0 {
        q - 1
    } else {
        q
    }
}

/// A rectangle that moves: `rect` is its shape relative to its origin, placed
/// in the world at the pixel that holds `position`.
#[derive(Clone, Copy, Debug, PartialEq, Eq, Structural)]
pub struct RectObject {
    pub rect: Rect,
    pub position: FVec,
    pub velocity: FVec,
}

/// The rectangle of `o` in screen coordinates: its shape translated by its floored position.
pub open spec fn world_of(o: RectObject) -> Rect {
    Rect {
        x: (pixel_of(o.position.x as int) + o.rect.x) as i64,
        y: (pixel_of(o.position.y as int) + o.rect.y) as i64,
        w: o.rect.w,
        h: o.rect.h,
    }
}

impl RectObject {
    /// The shape's offset from the origin lies within the range of `i32`.
    pub open spec fn wf(&self) -> bool {
        &&& i32::MIN <= self.rect.x <= i32::MAX
        &&& i32::MIN <= self.rect.y <= i32::MAX
    }

    pub fn new(rect: Rect, position: FVec, velocity: FVec) -> (r: RectObject)
        ensures
            r == (RectObject { rect, position, velocity }),
    {
        RectObject { rect, position, velocity }
    }

    pub fn world_rect(&self) -> (r: Rect)
        requires
            self.wf(),
        ensures
            r == world_of(*self),
            i32::MIN - 10_000_000_000_000 <= r.x <= i32::MAX + 10_000_000_000_000,
            i32::MIN - 10_000_000_000_000 <= r.y <= i32::MAX + 10_000_000_000_000,
    {
        let px = to_pixel(self.position.x);
        let py = to_pixel(self.position.y);
        Rect { x: px + self.rect.x, y: py + self.rect.y, w: self.rect.w, h: self.rect.h }
    }
}

} // verus!
