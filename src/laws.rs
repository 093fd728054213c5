use vstd::prelude::*;
use crate::context::{empty_box, identity, rect_box, RenderContext};
use crate::dpi::{lemma_floor_bound, lemma_round_trip, to_pixels, to_points};
use crate::geometry::{Color, Point, Rect};
use crate::surface::HalfBox;
use crate::layout::{lemma_lookup_push, lookup, AttrKind, StyleSpan, TextLayout};

verus! {

/// Resizing to `(w, h)` a second time leaves the bounds the first resize gave.
pub proof fn resize_idempotent(
    a: &RenderContext,
    b: &RenderContext,
    c: &RenderContext,
    w: u32,
    h: u32,
)
    requires
        RenderContext::resized(a, b, w, h),
        RenderContext::resized(b, c, w, h),
    ensures
        c.bounds_spec() == b.bounds_spec(),
{
}

/// Converting a point into device pixels and back gives the point itself,
/// at every density a context accepts.
pub proof fn coordinate_round_trip(rx: &RenderContext, p: Point)
    requires
        rx.wf(),
    ensures
        to_points(to_pixels(p.x as int, rx.dpi_spec()), rx.dpi_spec()) == p.x,
        to_points(to_pixels(p.y as int, rx.dpi_spec()), rx.dpi_spec()) == p.y,
{
    rx.lemma_wf();
    lemma_round_trip(p.x as int, rx.dpi_spec());
    lemma_round_trip(p.y as int, rx.dpi_spec());
}

/// Of two overrides applied one after the other, the later one decides its
/// property wherever the two overlap; elsewhere each keeps its own range.
pub proof fn later_range_wins(
    l0: &TextLayout,
    l1: &TextLayout,
    l2: &TextLayout,
    first: StyleSpan,
    second: StyleSpan,
    kind: AttrKind,
    i: int,
)
    requires
        l1.spans() == l0.spans().push(first),
        l2.spans() == l1.spans().push(second),
    ensures
        lookup(l2.spans(), kind, i) == (if second.sets(kind, i) {
            Some(second.attr)
        } else if first.sets(kind, i) {
            Some(first.attr)
        } else {
            lookup(l0.spans(), kind, i)
        }),
{
    lemma_lookup_push(l1.spans(), second, kind, i);
    lemma_lookup_push(l0.spans(), first, kind, i);
}

/// A point strictly outside a layout's bounds hits no character.
pub proof fn hit_outside_bounds(l: &TextLayout, p: Point)
    requires
        !l.bounds_spec().holds(p),
    ensures
        l.hit_index(p) is None,
{
    if p.x < 0 || p.y < 0 {
        return;
    }
    let cw = l.cell_w();
    let ch = l.cell_h();
    let per = l.cells_per_line();
    let len = l.len_spec() as int;
    let used = if len < per {
        len
    } else {
        per
    };
    let col = (p.x as int) / cw;
    let row = (p.y as int) / ch;
    assert(cw >= 1 && ch >= 1 && per >= 1);
    lemma_floor_bound(p.x as int, cw);
    lemma_floor_bound(p.y as int, ch);
    assert(row >= 0 && col >= 0) by (nonlinear_arith)
        requires
            col * cw <= p.x < col * cw + cw,
            row * ch <= p.y < row * ch + ch,
            p.x >= 0,
            p.y >= 0,
            cw >= 1,
            ch >= 1;
    if p.x > l.bounds_spec().w {
        assert(used * cw <= i32::MAX);
        assert(col >= used) by (nonlinear_arith)
            requires
                p.x > used * cw,
                p.x < col * cw + cw,
                cw >= 1;
        assert(row * per + col >= col) by (nonlinear_arith)
            requires row >= 0, per >= 1;
    } else {
        assert(p.y > l.bounds_spec().h);
        let lines = l.lines();
        assert(lines * ch <= i32::MAX);
        assert(row >= lines) by (nonlinear_arith)
            requires
                p.y > lines * ch,
                p.y < row * ch + ch,
                ch >= 1;
        lemma_floor_bound(len + per - 1, per);
        assert(lines * per >= len) by (nonlinear_arith)
            requires
                lines * per <= len + per - 1 < lines * per + per;
        assert(row * per + col >= lines * per) by (nonlinear_arith)
            requires row >= lines, per >= 1, col >= 0;
    }
}

/// The top-left corner of a layout with text hits its first character.
pub proof fn hit_top_left(l: &TextLayout)
    requires
        l.len_spec() > 0,
    ensures
        l.hit_index(Point { x: 0, y: 0 }) == Some(0int),
{
    let cw = l.cell_w();
    let ch = l.cell_h();
    lemma_floor_bound(0, cw);
    lemma_floor_bound(0, ch);
    assert(0int / cw == 0) by (nonlinear_arith)
        requires (0int / cw) * cw <= 0 < (0int / cw) * cw + cw, cw >= 1;
    assert(0int / ch == 0) by (nonlinear_arith)
        requires (0int / ch) * ch <= 0 < (0int / ch) * ch + ch, ch >= 1;
    assert(l.cells_per_line() >= 1);
}

/// After a resize and the next `start_paint` the translation is the
/// identity: a fill at the origin lands on the surface's first pixel.
pub proof fn resize_discards_transform(
    a: &RenderContext,
    b: &RenderContext,
    c: &RenderContext,
    d: &RenderContext,
    w: u32,
    h: u32,
    col: Color,
)
    requires
        RenderContext::resized(a, b, w, h),
        RenderContext::started(b, c),
        RenderContext::painted_over(
            c,
            d,
            rect_box(Rect { x: 0, y: 0, w: 1, h: 1 }, c.transform_spec(), 0),
            empty_box(),
            col,
        ),
        d.surface_spec().width_px() == w,
        d.surface_spec().height_px() == h,
        w >= 1,
        h >= 1,
    ensures
        c.transform_spec() == identity(),
        d.surface_spec().pixel(0, 0) == col,
{
    c.lemma_wf();
    let dpi = c.dpi_spec();
    let bx = rect_box(Rect { x: 0, y: 0, w: 1, h: 1 }, c.transform_spec(), 0);
    assert(bx == HalfBox { x0: 0, y0: 0, x1: 2, y1: 2 });
    assert(bx.covers(dpi, 0, 0));
    assert(!empty_box().covers(dpi, 0, 0));
    assert(d.surface_spec().in_grid(0, 0));
}

} // verus!
