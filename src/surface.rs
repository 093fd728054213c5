use vstd::prelude::*;
use crate::dpi::{self, lemma_ceil_bound, to_points, valid_dpi, MAX_DPI, POINTS_PER_INCH};
use crate::geometry::{Color, Point, Rect};

verus! {

/// The longest side, in device pixels, that a surface accepts.
pub const MAX_SIDE: u32 = 16384;

/// The largest magnitude of a half-point coordinate handed to a fill.
pub const MAX_HALF: i64 = 0x100_0000_0000;

/// A fully transparent pixel: what a fresh or recreated surface holds.
pub open spec fn transparent() -> Color {
    Color { r: 0, g: 0, b: 0, a: 0 }
}

/// Why a surface could not be created.
#[derive(Clone, Copy, Debug, PartialEq, Eq, Structural)]
pub enum SurfaceError {
    /// A side exceeds `MAX_SIDE` device pixels.
    TooLarge,
    /// The density is outside `POINTS_PER_INCH ..= MAX_DPI`.
    UnsupportedDensity,
}

/// A box in half-points of the surface's point space: `[x0, x1) x [y0, y1)`.
/// Half-points let a stroke straddle an edge by half its width.
#[derive(Clone, Copy, Debug, PartialEq, Eq, Structural)]
pub struct HalfBox {
    pub x0: i64,
    pub y0: i64,
    pub x1: i64,
    pub y1: i64,
}

impl HalfBox {
    pub open spec fn bounded(self) -> bool {
        -MAX_HALF <= self.x0 <= MAX_HALF && -MAX_HALF <= self.x1 <= MAX_HALF
            && -MAX_HALF <= self.y0 <= MAX_HALF && -MAX_HALF <= self.y1 <= MAX_HALF
    }

    /// Whether device pixel `(px, py)` is inside: its top-left corner lies in
    /// the box once mapped to pixels at density `dpi`.
    pub open spec fn covers(self, dpi: int, px: int, py: int) -> bool {
        covers_axis(self.x0 as int, self.x1 as int, dpi, px)
            && covers_axis(self.y0 as int, self.y1 as int, dpi, py)
    }
}

/// Half-points per inch.
pub const HALF_POINTS_PER_INCH: i64 = 192;

/// Whether pixel index `i` starts at or after the half-point coordinate `a`:
/// pixel `i` starts at `i / dpi` inches, `a` lies at `a / 192` inches.
pub open spec fn reaches(a: int, dpi: int, i: int) -> bool {
    a * dpi <= HALF_POINTS_PER_INCH * i
}

/// Whether pixel index `i` starts inside the half-point interval `[a, b)`.
pub open spec fn covers_axis(a: int, b: int, dpi: int, i: int) -> bool {
    reaches(a, dpi, i) && !reaches(b, dpi, i)
}

/// What a pixel holds after painting `color` over `outer` minus `hole`.
pub open spec fn painted(
    before: Color,
    color: Color,
    outer: HalfBox,
    hole: HalfBox,
    dpi: int,
    px: int,
    py: int,
) -> Color {
    if outer.covers(dpi, px, py) && !hole.covers(dpi, px, py) {
        color
    } else {
        before
    }
}

/// The first pixel index at or after the half-point coordinate `a`, kept
/// within `0 ..= len`.
fn span_bound(a: i64, dpi: u32, len: usize) -> (r: usize)
    requires
        -MAX_HALF <= a <= MAX_HALF,
        valid_dpi(dpi as int),
        len <= MAX_SIDE,
    ensures
        r <= len,
        forall|i: int| 0 <= i < len ==> (i >= r <==> #[trigger] reaches(a as int, dpi as int, i)),
{
    assert(-MAX_HALF * MAX_DPI <= a * dpi <= MAX_HALF * MAX_DPI) by (nonlinear_arith)
        requires -MAX_HALF <= a <= MAX_HALF, 0 < dpi <= MAX_DPI;
    let c = dpi::ceil_div(a * dpi as i64, HALF_POINTS_PER_INCH);
    proof {
        assert forall|i: int| 0 <= i < len implies (i >= c <==> #[trigger] reaches(a as int, dpi as int, i)) by {
            lemma_ceil_bound(i, a * dpi, 192);
        }
    }
    if c <= 0 {
        0
    } else if c >= len as i64 {
        len
    } else {
        c as usize
    }
}

/// A software surface: a grid of RGBA pixels with a density that maps points
/// to device pixels.
pub struct RasterSurface {
    width: u32,
    height: u32,
    dpi: u32,
    rows: Vec<Vec<Color>>,
}

/// A row of `n` transparent pixels.
fn blank_row(n: u32) -> (r: Vec<Color>)
    ensures
        r@.len() == n,
        forall|i: int| 0 <= i < n ==> r@[i] == transparent(),
{
    let mut row: Vec<Color> = Vec::new();
    let mut i: u32 = 0;
    while i < n
        invariant
            i <= n,
            row@.len() == i,
            forall|j: int| 0 <= j < i ==> row@[j] == transparent(),
        decreases n - i,
    {
        row.push(Color { r: 0, g: 0, b: 0, a: 0 });
        i = i + 1;
    }
    row
}

/// `h` rows of `w` transparent pixels.
fn blank_rows(w: u32, h: u32) -> (r: Vec<Vec<Color>>)
    ensures
        r@.len() == h,
        forall|y: int| 0 <= y < h ==> #[trigger] r@[y]@.len() == w,
        forall|y: int, x: int| 0 <= y < h && 0 <= x < w ==> #[trigger] r@[y]@[x] == transparent(),
{
    let mut rows: Vec<Vec<Color>> = Vec::new();
    let mut j: u32 = 0;
    while j < h
        invariant
            j <= h,
            rows@.len() == j,
            forall|y: int| 0 <= y < j ==> #[trigger] rows@[y]@.len() == w,
            forall|y: int, x: int| 0 <= y < j && 0 <= x < w ==> #[trigger] rows@[y]@[x] == transparent(),
        decreases h - j,
    {
        rows.push(blank_row(w));
        j = j + 1;
    }
    rows
}

impl RasterSurface {
    /// Width in device pixels.
    pub closed spec fn width_px(&self) -> nat {
        self.width as nat
    }

    /// Height in device pixels.
    pub closed spec fn height_px(&self) -> nat {
        self.height as nat
    }

    /// Dots per inch; `POINTS_PER_INCH` maps one point to one pixel.
    pub closed spec fn density(&self) -> nat {
        self.dpi as nat
    }

    /// The pixel at column `x`, row `y`.
    pub closed spec fn pixel(&self, x: int, y: int) -> Color {
        self.rows@[y]@[x]
    }

    pub closed spec fn wf(&self) -> bool {
        &&& valid_dpi(self.dpi as int)
        &&& self.width <= MAX_SIDE
        &&& self.height <= MAX_SIDE
        &&& self.rows@.len() == self.height
        &&& forall|y: int| 0 <= y < self.height ==> #[trigger] self.rows@[y]@.len() == self.width
    }

    pub proof fn lemma_wf_dpi(&self)
        requires
            self.wf(),
        ensures
            valid_dpi(self.density() as int),
            self.width_px() <= MAX_SIDE,
            self.height_px() <= MAX_SIDE,
    {
    }

    /// Whether `(x, y)` names a pixel of the surface.
    pub open spec fn in_grid(&self, x: int, y: int) -> bool {
        0 <= x < self.width_px() && 0 <= y < self.height_px()
    }

    /// Every pixel is transparent.
    pub open spec fn is_blank(&self) -> bool {
        forall|x: int, y: int| self.in_grid(x, y) ==> #[trigger] self.pixel(x, y) == transparent()
    }

    /// The surface's extent in points.
    pub open spec fn bounds_spec(&self) -> Rect {
        Rect {
            x: 0,
            y: 0,
            w: to_points(self.width_px() as int, self.density() as int) as i32,
            h: to_points(self.height_px() as int, self.density() as int) as i32,
        }
    }

    /// A blank surface of `width` x `height` device pixels at density `dpi`.
    pub fn new(width: u32, height: u32, dpi: u32) -> (r: Result<RasterSurface, SurfaceError>)
        ensures
            r is Err <==> width > MAX_SIDE || height > MAX_SIDE || !valid_dpi(dpi as int),
            r matches Err(e) ==> (e == SurfaceError::TooLarge <==> width > MAX_SIDE || height > MAX_SIDE),
            r matches Ok(s) ==> s.wf() && s.width_px() == width && s.height_px() == height
                && s.density() == dpi && s.is_blank(),
    {
        if width > MAX_SIDE || height > MAX_SIDE {
            return Err(SurfaceError::TooLarge);
        }
        if dpi < POINTS_PER_INCH || dpi > MAX_DPI {
            return Err(SurfaceError::UnsupportedDensity);
        }
        Ok(RasterSurface { width, height, dpi, rows: blank_rows(width, height) })
    }

    pub fn width(&self) -> (r: u32)
        ensures
            r == self.width_px(),
    {
        self.width
    }

    pub fn height(&self) -> (r: u32)
        ensures
            r == self.height_px(),
    {
        self.height
    }

    pub fn dpi(&self) -> (r: u32)
        ensures
            r == self.density(),
    {
        self.dpi
    }

    /// The pixel at `(x, y)`, or `None` off the surface.
    pub fn pixel_at(&self, x: u32, y: u32) -> (r: Option<Color>)
        requires
            self.wf(),
        ensures
            r == (if self.in_grid(x as int, y as int) { Some(self.pixel(x as int, y as int)) } else { None }),
    {
        if x < self.width && y < self.height {
            Some(self.rows[y as usize][x as usize])
        } else {
            None
        }
    }

    /// The surface's extent in points.
    pub fn bounds(&self) -> (r: Rect)
        requires
            self.wf(),
        ensures
            r == self.bounds_spec(),
    {
        let w = dpi::pixels_to_points(Point { x: self.width as i32, y: self.height as i32 }, self.dpi);
        Rect { x: 0, y: 0, w: w.x, h: w.y }
    }

    /// A device-pixel position in points.
    pub fn pixels_to_points(&self, p: Point) -> (r: Point)
        requires
            self.wf(),
        ensures
            r.x == to_points(p.x as int, self.density() as int),
            r.y == to_points(p.y as int, self.density() as int),
    {
        dpi::pixels_to_points(p, self.dpi)
    }

    /// Replaces the pixel store by a blank one of `width` x `height` device
    /// pixels; the density stays.
    pub fn resize(&mut self, width: u32, height: u32)
        requires
            old(self).wf(),
            width <= MAX_SIDE,
            height <= MAX_SIDE,
        ensures
            final(self).wf(),
            final(self).width_px() == width,
            final(self).height_px() == height,
            final(self).density() == old(self).density(),
            final(self).is_blank(),
    {
        let dpi = self.dpi;
        self.recreate(width, height, dpi);
    }

    /// Replaces the pixel store by a blank one of `width` x `height` device
    /// pixels at density `dpi`.
    pub fn recreate(&mut self, width: u32, height: u32, dpi: u32)
        requires
            old(self).wf(),
            width <= MAX_SIDE,
            height <= MAX_SIDE,
            valid_dpi(dpi as int),
        ensures
            final(self).wf(),
            final(self).width_px() == width,
            final(self).height_px() == height,
            final(self).density() == dpi,
            final(self).is_blank(),
    {
        self.rows = Vec::new();
        self.width = width;
        self.height = height;
        self.dpi = dpi;
        self.rows = blank_rows(width, height);
    }

    /// Paints `color` over every pixel that `outer` covers and `hole` does not,
    /// replacing what was there.
    pub fn paint(&mut self, outer: HalfBox, hole: HalfBox, color: Color)
        requires
            old(self).wf(),
            outer.bounded(),
            hole.bounded(),
        ensures
            final(self).wf(),
            final(self).width_px() == old(self).width_px(),
            final(self).height_px() == old(self).height_px(),
            final(self).density() == old(self).density(),
            forall|x: int, y: int| #[trigger] final(self).in_grid(x, y) ==> final(self).pixel(x, y)
                == painted(old(self).pixel(x, y), color, outer, hole, old(self).density() as int, x, y),
    {
        let w = self.width as usize;
        let h = self.height as usize;
        let xs = span_bound(outer.x0, self.dpi, w);
        let xe = span_bound(outer.x1, self.dpi, w);
        let ys = span_bound(outer.y0, self.dpi, h);
        let ye = span_bound(outer.y1, self.dpi, h);
        let hxs = span_bound(hole.x0, self.dpi, w);
        let hxe = span_bound(hole.x1, self.dpi, w);
        let hys = span_bound(hole.y0, self.dpi, h);
        let hye = span_bound(hole.y1, self.dpi, h);
        let ghost d = self.dpi as int;
        let ghost before = *self;
        let mut y: usize = 0;
        while y < h
            invariant
                before.wf(),
                w == before.width,
                h == before.height,
                d == before.dpi,
                self.width == before.width,
                self.height == before.height,
                self.dpi == before.dpi,
                y <= h,
                self.rows@.len() == h,
                forall|j: int| 0 <= j < h ==> #[trigger] self.rows@[j]@.len() == w,
                forall|j: int| y <= j < h ==> #[trigger] self.rows@[j] == before.rows@[j],
                forall|i: int| 0 <= i < w ==> (i >= xs <==> #[trigger] reaches(outer.x0 as int, d, i)),
                forall|i: int| 0 <= i < w ==> (i >= xe <==> #[trigger] reaches(outer.x1 as int, d, i)),
                forall|i: int| 0 <= i < h ==> (i >= ys <==> #[trigger] reaches(outer.y0 as int, d, i)),
                forall|i: int| 0 <= i < h ==> (i >= ye <==> #[trigger] reaches(outer.y1 as int, d, i)),
                forall|i: int| 0 <= i < w ==> (i >= hxs <==> #[trigger] reaches(hole.x0 as int, d, i)),
                forall|i: int| 0 <= i < w ==> (i >= hxe <==> #[trigger] reaches(hole.x1 as int, d, i)),
                forall|i: int| 0 <= i < h ==> (i >= hys <==> #[trigger] reaches(hole.y0 as int, d, i)),
                forall|i: int| 0 <= i < h ==> (i >= hye <==> #[trigger] reaches(hole.y1 as int, d, i)),
                forall|x: int, j: int| 0 <= j < y && 0 <= x < w ==> #[trigger] self.rows@[j]@[x]
                    == painted(before.rows@[j]@[x], color, outer, hole, d, x, j),
            decreases h - y,
        {
            if ys <= y && y < ye {
                let in_hole_row = hys <= y && y < hye;
                let mut row: Vec<Color> = Vec::new();
                let mut x: usize = 0;
                while x < w
                    invariant
                        x <= w,
                        y < h,
                        self.rows@.len() == h,
                        self.rows@[y as int]@.len() == w,
                        row@.len() == x,
                        forall|i: int| 0 <= i < x ==> #[trigger] row@[i] == (if xs <= i < xe
                            && !(in_hole_row && hxs <= i < hxe) {
                            color
                        } else {
                            self.rows@[y as int]@[i]
                        }),
                    decreases w - x,
                {
                    if xs <= x && x < xe && !(in_hole_row && hxs <= x && x < hxe) {
                        row.push(color);
                    } else {
                        row.push(self.rows[y][x]);
                    }
                    x = x + 1;
                }
                self.rows.set(y, row);
            }
            y = y + 1;
        }
    }
}

} // verus!
