use vstd::prelude::*;

verus! {

/// True when `v` is representable as an `i32`.
pub open spec fn fits_i32(v: int) -> bool {
    i32::MIN <= v <= i32::MAX
}

/// A position in device-independent points.
#[derive(Clone, Copy, Debug, PartialEq, Eq, Structural)]
pub struct Point {
    pub x: i32,
    pub y: i32,
}

impl Point {
    pub fn xy(x: i32, y: i32) -> (r: Point)
        ensures
            r == (Point { x, y }),
    {
        Point { x, y }
    }

    /// A point on the horizontal axis.
    pub fn x(x: i32) -> (r: Point)
        ensures
            r == (Point { x, y: 0 }),
    {
        Point { x, y: 0 }
    }

    /// A point on the vertical axis.
    pub fn y(y: i32) -> (r: Point)
        ensures
            r == (Point { x: 0, y }),
    {
        Point { x: 0, y }
    }

    pub open spec fn can_add(self, o: Point) -> bool {
        fits_i32(self.x + o.x) && fits_i32(self.y + o.y)
    }

    pub open spec fn can_sub(self, o: Point) -> bool {
        fits_i32(self.x - o.x) && fits_i32(self.y - o.y)
    }

    pub open spec fn sum(self, o: Point) -> Point {
        Point { x: (self.x + o.x) as i32, y: (self.y + o.y) as i32 }
    }

    pub open spec fn difference(self, o: Point) -> Point {
        Point { x: (self.x - o.x) as i32, y: (self.y - o.y) as i32 }
    }

    /// The coordinate on `axis`: 0 is horizontal, 1 is vertical.
    pub fn coord(&self, axis: u8) -> (r: i32)
        requires
            axis < 2,
        ensures
            r == if axis == 0 { self.x } else { self.y },
    {
        if axis == 0 {
            self.x
        } else {
            self.y
        }
    }

    /// Replaces the coordinate on `axis`: 0 is horizontal, 1 is vertical.
    pub fn set_coord(&mut self, axis: u8, v: i32)
        requires
            axis < 2,
        ensures
            axis == 0 ==> *final(self) == (Point { x: v, y: old(self).y }),
            axis == 1 ==> *final(self) == (Point { x: old(self).x, y: v }),
    {
        if axis == 0 {
            self.x = v;
        } else {
            self.y = v;
        }
    }
}

impl std::ops::Add for Point {
    type Output = Point;

    fn add(self, o: Point) -> (r: Point) {
        Point { x: self.x + o.x, y: self.y + o.y }
    }
}

impl vstd::std_specs::ops::AddSpecImpl for Point {
    open spec fn obeys_add_spec() -> bool {
        true
    }

    open spec fn add_req(self, o: Point) -> bool {
        self.can_add(o)
    }

    open spec fn add_spec(self, o: Point) -> Point {
        self.sum(o)
    }
}

impl std::ops::Sub for Point {
    type Output = Point;

    fn sub(self, o: Point) -> (r: Point) {
        Point { x: self.x - o.x, y: self.y - o.y }
    }
}

impl vstd::std_specs::ops::SubSpecImpl for Point {
    open spec fn obeys_sub_spec() -> bool {
        true
    }

    open spec fn sub_req(self, o: Point) -> bool {
        self.can_sub(o)
    }

    open spec fn sub_spec(self, o: Point) -> Point {
        self.difference(o)
    }
}

impl From<(i32, i32)> for Point {
    fn from(v: (i32, i32)) -> (r: Point) {
        Point { x: v.0, y: v.1 }
    }
}

impl vstd::std_specs::convert::FromSpecImpl<(i32, i32)> for Point {
    open spec fn obeys_from_spec() -> bool {
        true
    }

    open spec fn from_spec(v: (i32, i32)) -> Point {
        Point { x: v.0, y: v.1 }
    }
}

impl Default for Point {
    fn default() -> (r: Point)
        ensures
            r == (Point { x: 0, y: 0 }),
    {
        Point { x: 0, y: 0 }
    }
}

/// An axis-aligned box in points: origin `(x, y)`, width `w` and height `h`.
#[derive(Clone, Copy, Debug, PartialEq, Eq, Structural)]
pub struct Rect {
    pub x: i32,
    pub y: i32,
    pub w: i32,
    pub h: i32,
}

impl Rect {
    /// The closed containment test: edges count as inside.
    pub open spec fn holds(self, p: Point) -> bool {
        self.x <= p.x && self.y <= p.y && p.x <= self.x + self.w && p.y <= self.y + self.h
    }

    /// A rectangle at the origin with the given extents.
    pub fn wh(w: i32, h: i32) -> (r: Rect)
        ensures
            r == (Rect { x: 0, y: 0, w, h }),
    {
        Rect { x: 0, y: 0, w, h }
    }

    pub fn xywh(x: i32, y: i32, w: i32, h: i32) -> (r: Rect)
        ensures
            r == (Rect { x, y, w, h }),
    {
        Rect { x, y, w, h }
    }

    /// A rectangle from an origin point and extents.
    pub fn pnwh(p: Point, w: i32, h: i32) -> (r: Rect)
        ensures
            r == (Rect { x: p.x, y: p.y, w, h }),
    {
        Rect { x: p.x, y: p.y, w, h }
    }

    /// A rectangle from an origin point and a point holding the extents.
    pub fn from_points(p: Point, size: Point) -> (r: Rect)
        ensures
            r == (Rect { x: p.x, y: p.y, w: size.x, h: size.y }),
    {
        Rect { x: p.x, y: p.y, w: size.x, h: size.y }
    }

    /// The same extents, with the origin moved by `p`.
    pub fn offset(&self, p: Point) -> (r: Rect)
        requires
            fits_i32(self.x + p.x),
            fits_i32(self.y + p.y),
        ensures
            r == (Rect { x: (self.x + p.x) as i32, y: (self.y + p.y) as i32, w: self.w, h: self.h }),
    {
        Rect { x: self.x + p.x, y: self.y + p.y, w: self.w, h: self.h }
    }

    /// Whether `p` lies in this rectangle, edges included.
    pub fn contains(&self, p: Point) -> (r: bool)
        ensures
            r == self.holds(p),
    {
        let right = self.x as i64 + self.w as i64;
        let bottom = self.y as i64 + self.h as i64;
        p.x >= self.x && p.y >= self.y && p.x as i64 <= right && p.y as i64 <= bottom
    }
}

/// The largest channel value: full intensity, or full opacity.
pub const FULL: u8 = 255;

/// An RGBA color with 8-bit channels; `a` is the opacity.
#[derive(Clone, Copy, Debug, PartialEq, Eq, Structural)]
pub struct Color {
    pub r: u8,
    pub g: u8,
    pub b: u8,
    pub a: u8,
}

/// One channel of the blend of `a` and `b` that takes `t` parts in 255 of `b`.
pub open spec fn mix_channel(a: u8, b: u8, t: u8) -> u8 {
    ((a * (255 - t) + b * t) / 255) as u8
}

fn blend_channel(a: u8, b: u8, t: u8) -> (r: u8)
    ensures
        r == mix_channel(a, b, t),
{
    let (a, b, t) = (a as u32, b as u32, t as u32);
    assert(a * (255 - t) <= 255 * (255 - t)) by (nonlinear_arith)
        requires a <= 255, t <= 255;
    assert(b * t <= 255 * t) by (nonlinear_arith)
        requires b <= 255, t <= 255;
    let v = (a * (255 - t) + b * t) / 255;
    v as u8
}

impl Color {
    /// An opaque color.
    pub fn rgb(r: u8, g: u8, b: u8) -> (c: Color)
        ensures
            c == (Color { r, g, b, a: FULL }),
    {
        Color { r, g, b, a: FULL }
    }

    /// A color with the given opacity.
    pub fn rgba(r: u8, g: u8, b: u8, a: u8) -> (c: Color)
        ensures
            c == (Color { r, g, b, a }),
    {
        Color { r, g, b, a }
    }

    pub fn black() -> (c: Color)
        ensures
            c == (Color { r: 0, g: 0, b: 0, a: FULL }),
    {
        Color { r: 0, g: 0, b: 0, a: FULL }
    }

    pub fn white() -> (c: Color)
        ensures
            c == (Color { r: FULL, g: FULL, b: FULL, a: FULL }),
    {
        Color { r: FULL, g: FULL, b: FULL, a: FULL }
    }

    /// Linear interpolation towards `other`: `t` is the share of `other` in
    /// parts of 255, so 0 gives `self` and 255 gives `other`.
    pub fn mix(&self, other: Color, t: u8) -> (c: Color)
        ensures
            c == (Color {
                r: mix_channel(self.r, other.r, t),
                g: mix_channel(self.g, other.g, t),
                b: mix_channel(self.b, other.b, t),
                a: mix_channel(self.a, other.a, t),
            }),
    {
        Color {
            r: blend_channel(self.r, other.r, t),
            g: blend_channel(self.g, other.g, t),
            b: blend_channel(self.b, other.b, t),
            a: blend_channel(self.a, other.a, t),
        }
    }
}

} // verus!
