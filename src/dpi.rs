use vstd::prelude::*;
use crate::geometry::{fits_i32, Point};

verus! {

/// Device-independent points per inch: a surface of this density maps one
/// point to one pixel.
pub const POINTS_PER_INCH: u32 = 96;

/// The highest density a surface accepts (ten times the base density).
pub const MAX_DPI: u32 = 960;

/// A density a surface can be created with: at least one pixel per point.
pub open spec fn valid_dpi(dpi: int) -> bool {
    POINTS_PER_INCH <= dpi <= MAX_DPI
}

/// Rounds `n / d` towards negative infinity (`d > 0`).
pub open spec fn div_floor(n: int, d: int) -> int {
    n / d
}

/// Rounds `n / d` towards positive infinity (`d > 0`).
pub open spec fn div_ceil(n: int, d: int) -> int {
    -((-n) / d)
}

/// A device-pixel coordinate in points, rounded down.
pub open spec fn to_points(px: int, dpi: int) -> int {
    div_floor(px * POINTS_PER_INCH, dpi)
}

/// A point coordinate in device pixels, rounded up.
pub open spec fn to_pixels(pt: int, dpi: int) -> int {
    div_ceil(pt * dpi, POINTS_PER_INCH as int)
}

pub proof fn lemma_ceil_bound(i: int, n: int, d: int)
    requires
        d > 0,
    ensures
        i >= div_ceil(n, d) <==> i * d >= n,
{
    let q = (-n) / d;
    lemma_floor_bound(-n, d);
    assert(q * d <= -n < q * d + d);
    if i >= -q {
        assert(i * d >= n) by (nonlinear_arith)
            requires i >= -q, d > 0, q * d <= -n;
    } else {
        assert(i * d < n) by (nonlinear_arith)
            requires i <= -q - 1, d > 0, -n < q * d + d;
    }
}

pub proof fn lemma_floor_bound(n: int, d: int)
    requires
        d > 0,
    ensures
        div_floor(n, d) * d <= n < div_floor(n, d) * d + d,
{
    vstd::arithmetic::div_mod::lemma_fundamental_div_mod(n, d);
    vstd::arithmetic::div_mod::lemma_mod_bound(n, d);
    let q = n / d;
    assert(q * d == d * q) by (nonlinear_arith);
}

/// Floor division on machine integers.
pub fn floor_div(n: i64, d: i64) -> (r: i64)
    requires
        d > 0,
        n > i64::MIN,
    ensures
        r == div_floor(n as int, d as int),
{
    proof {
        lemma_floor_bound(n as int, d as int);
    }
    if n >= 0 {
        n / d
    } else {
        let m = -n - 1;
        let q = m / d;
        proof {
            lemma_floor_bound(m as int, d as int);
            assert(-q - 1 == (n as int) / (d as int)) by {
                vstd::arithmetic::div_mod::lemma_fundamental_div_mod(n as int, d as int);
                let fq = (n as int) / (d as int);
                assert(fq * d <= n < fq * d + d);
                assert(q * d <= m < q * d + d);
                assert(fq == -q - 1) by (nonlinear_arith)
                    requires
                        fq * d <= n < fq * d + d,
                        q * d <= -n - 1 < q * d + d,
                        d > 0;
            }
        }
        -q - 1
    }
}

/// Ceiling division on machine integers.
pub fn ceil_div(n: i64, d: i64) -> (r: i64)
    requires
        d > 0,
        n > i64::MIN,
    ensures
        r == div_ceil(n as int, d as int),
{
    let q = floor_div(-n, d);
    proof {
        lemma_floor_bound(-n as int, d as int);
        assert(q * d <= -n);
        assert(q >= -n || -n >= 0) by (nonlinear_arith)
            requires q * d <= -n < q * d + d, d > 0;
        assert(q >= 0 || q >= -n) by (nonlinear_arith)
            requires q * d <= -n < q * d + d, d > 0;
    }
    -q
}

/// Converts a device-pixel position into points at density `dpi`.
pub fn pixels_to_points(p: Point, dpi: u32) -> (r: Point)
    requires
        valid_dpi(dpi as int),
    ensures
        r.x == to_points(p.x as int, dpi as int),
        r.y == to_points(p.y as int, dpi as int),
{
    Point { x: coord_to_points(p.x, dpi), y: coord_to_points(p.y, dpi) }
}

fn coord_to_points(v: i32, dpi: u32) -> (r: i32)
    requires
        valid_dpi(dpi as int),
    ensures
        r == to_points(v as int, dpi as int),
{
    let n = v as i64 * 96;
    let q = floor_div(n, dpi as i64);
    proof {
        let d = dpi as int;
        lemma_floor_bound(n as int, d);
        if v >= 0 {
            assert(q >= 0 && q <= v) by (nonlinear_arith)
                requires q * d <= n < q * d + d, n == v * 96, v >= 0, d >= 96;
        } else {
            assert(q < 0 && q >= v) by (nonlinear_arith)
                requires q * d <= n < q * d + d, n == v * 96, v < 0, d >= 96;
        }
    }
    q as i32
}

/// Whether a point converts into device pixels at density `dpi` without
/// leaving the range of `i32`.
pub open spec fn pixels_fit(p: Point, dpi: int) -> bool {
    fits_i32(to_pixels(p.x as int, dpi)) && fits_i32(to_pixels(p.y as int, dpi))
}

/// Converts a position in points into device pixels at density `dpi`,
/// rounding up so that converting back gives the same point.
pub fn points_to_pixels(p: Point, dpi: u32) -> (r: Point)
    requires
        valid_dpi(dpi as int),
        pixels_fit(p, dpi as int),
    ensures
        r.x == to_pixels(p.x as int, dpi as int),
        r.y == to_pixels(p.y as int, dpi as int),
{
    let x = ceil_div(p.x as i64 * dpi as i64, 96);
    let y = ceil_div(p.y as i64 * dpi as i64, 96);
    Point { x: x as i32, y: y as i32 }
}

/// Converting a point into pixels at a density of at least one pixel per
/// point, and those pixels back into points, gives the point itself.
pub proof fn lemma_round_trip(pt: int, dpi: int)
    requires
        valid_dpi(dpi),
    ensures
        to_points(to_pixels(pt, dpi), dpi) == pt,
{
    let px = to_pixels(pt, dpi);
    lemma_ceil_bound(px, pt * dpi, 96);
    lemma_ceil_bound(px - 1, pt * dpi, 96);
    assert(px * 96 >= pt * dpi);
    assert((px - 1) * 96 < pt * dpi);
    let q = to_points(px, dpi);
    lemma_floor_bound(px * 96, dpi);
    assert(q == pt) by (nonlinear_arith)
        requires
            q * dpi <= px * 96 < q * dpi + dpi,
            px * 96 >= pt * dpi,
            px * 96 - 96 < pt * dpi,
            dpi >= 96;
}

} // verus!
