use vstd::prelude::*;
use crate::dpi::{self, pixels_fit, to_pixels, to_points, valid_dpi};
use crate::error::RenderError;
use crate::geometry::{Color, Point, Rect};
use crate::layout::TextLayout;
use crate::surface::{painted, HalfBox, RasterSurface, SurfaceError, MAX_HALF, MAX_SIDE};
use crate::text::{Font, FontStyle, FontWeight};
use vstd::string::StringSliceAdditionalSpecFns;

verus! {

/// A vector mark of the current frame that the raster surface keeps as a
/// record instead of pixels: a stroked line or a run of text.
#[derive(Clone, Copy, Debug, PartialEq, Eq, Structural)]
pub enum Mark {
    /// A line from `from` to `to`, `width` points wide, drawn under the
    /// translation `offset`.
    Line { from: Point, to: Point, width: u32, color: Color, offset: Point },
    /// `bytes` bytes of text drawn at `origin` under the translation `offset`.
    Text { origin: Point, bytes: usize, color: Color, offset: Point },
}

/// The origin: no translation.
pub open spec fn identity() -> Point {
    Point { x: 0, y: 0 }
}

/// The color a fresh drawing handle starts with.
pub open spec fn initial_color() -> Color {
    Color { r: 0, g: 0, b: 0, a: 255 }
}

/// A box that holds no pixel.
pub open spec fn empty_box() -> HalfBox {
    HalfBox { x0: 0, y0: 0, x1: 0, y1: 0 }
}

pub open spec fn min(a: int, b: int) -> int {
    if a <= b {
        a
    } else {
        b
    }
}

pub open spec fn max(a: int, b: int) -> int {
    if a <= b {
        b
    } else {
        a
    }
}

/// `rect` moved by `t`, in half-points, grown by `grow` half-points on every
/// side (shrunk where `grow` is negative). A negative width or height spans
/// leftwards or upwards.
pub open spec fn rect_box(rect: Rect, t: Point, grow: int) -> HalfBox {
    let x0 = rect.x + t.x;
    let y0 = rect.y + t.y;
    let x1 = x0 + rect.w;
    let y1 = y0 + rect.h;
    HalfBox {
        x0: (2 * min(x0, x1) - grow) as i64,
        y0: (2 * min(y0, y1) - grow) as i64,
        x1: (2 * max(x0, x1) + grow) as i64,
        y1: (2 * max(y0, y1) + grow) as i64,
    }
}

fn make_box(rect: Rect, t: Point, grow: i64) -> (r: HalfBox)
    requires
        -0x1_0000_0000 <= grow <= 0x1_0000_0000,
    ensures
        r == rect_box(rect, t, grow as int),
        r.bounded(),
{
    let x0 = rect.x as i64 + t.x as i64;
    let y0 = rect.y as i64 + t.y as i64;
    let x1 = x0 + rect.w as i64;
    let y1 = y0 + rect.h as i64;
    let (lx, hx) = if x0 <= x1 {
        (x0, x1)
    } else {
        (x1, x0)
    };
    let (ly, hy) = if y0 <= y1 {
        (y0, y1)
    } else {
        (y1, y0)
    };
    HalfBox { x0: 2 * lx - grow, y0: 2 * ly - grow, x1: 2 * hx + grow, y1: 2 * hy + grow }
}

/// A stateful 2D drawing context over a raster surface.
///
/// Besides the surface it holds the drawing handle's state (translation and
/// current color), the generation of its text context, and whether a frame
/// is being painted. `resize` recreates the surface, the drawing handle and
/// the text context.
pub struct RenderContext {
    surface: RasterSurface,
    transform: Point,
    color: Color,
    context: u64,
    painting: bool,
    marks: Vec<Mark>,
}

impl RenderContext {
    pub closed spec fn surface_spec(&self) -> RasterSurface {
        self.surface
    }

    /// The translation applied to drawing calls.
    pub closed spec fn transform_spec(&self) -> Point {
        self.transform
    }

    /// The color of stroke, fill, line and text calls.
    pub closed spec fn color_spec(&self) -> Color {
        self.color
    }

    /// The generation of the text context; it changes on every resize.
    pub closed spec fn context_spec(&self) -> u64 {
        self.context
    }

    /// Whether a frame is open: after `start_paint`, before `end_paint`.
    pub closed spec fn painting_spec(&self) -> bool {
        self.painting
    }

    /// The lines and text drawn in the current frame, oldest first.
    pub closed spec fn marks_spec(&self) -> Seq<Mark> {
        self.marks@
    }

    pub closed spec fn wf(&self) -> bool {
        self.surface.wf()
    }

    pub proof fn lemma_wf(&self)
        requires
            self.wf(),
        ensures
            self.surface_spec().wf(),
            valid_dpi(self.dpi_spec()),
    {
        self.surface.lemma_wf_dpi();
    }

    pub open spec fn dpi_spec(&self) -> int {
        self.surface_spec().density() as int
    }

    pub open spec fn bounds_spec(&self) -> Rect {
        self.surface_spec().bounds_spec()
    }

    /// What `resize(w, h)` leaves: a blank surface of the new size at the
    /// same density, a fresh drawing handle, a new text context, no frame.
    pub open spec fn resized(before: &RenderContext, after: &RenderContext, w: u32, h: u32) -> bool {
        Self::rebuilt(before, after, w, h, before.surface_spec().density() as u32)
    }

    /// What `rebuild(w, h, dpi)` leaves: a blank surface of the new size at
    /// density `dpi`, a fresh drawing handle, a new text context, no frame.
    pub open spec fn rebuilt(before: &RenderContext, after: &RenderContext, w: u32, h: u32, dpi: u32) -> bool {
        &&& after.wf()
        &&& after.surface_spec().width_px() == w
        &&& after.surface_spec().height_px() == h
        &&& after.surface_spec().density() == dpi
        &&& after.surface_spec().is_blank()
        &&& after.transform_spec() == identity()
        &&& after.color_spec() == initial_color()
        &&& after.context_spec() == before.context_spec().wrapping_add(1)
        &&& !after.painting_spec()
        &&& after.marks_spec() == Seq::<Mark>::empty()
    }

    /// What `start_paint` leaves: an open frame with no translation and no
    /// marks; surface, color and text context as they were.
    pub open spec fn started(before: &RenderContext, after: &RenderContext) -> bool {
        &&& after.wf()
        &&& after.surface_spec() == before.surface_spec()
        &&& after.transform_spec() == identity()
        &&& after.color_spec() == before.color_spec()
        &&& after.context_spec() == before.context_spec()
        &&& after.painting_spec()
        &&& after.marks_spec() == Seq::<Mark>::empty()
    }

    /// Drawing left everything but the pixels and the marks as it was.
    pub open spec fn same_handle(before: &RenderContext, after: &RenderContext) -> bool {
        &&& after.wf()
        &&& after.transform_spec() == before.transform_spec()
        &&& after.color_spec() == before.color_spec()
        &&& after.context_spec() == before.context_spec()
        &&& after.painting_spec() == before.painting_spec()
        &&& after.surface_spec().width_px() == before.surface_spec().width_px()
        &&& after.surface_spec().height_px() == before.surface_spec().height_px()
        &&& after.surface_spec().density() == before.surface_spec().density()
    }

    /// Every pixel of `after` is `before`'s with `color` painted over
    /// `outer` minus `hole`.
    pub open spec fn painted_over(
        before: &RenderContext,
        after: &RenderContext,
        outer: HalfBox,
        hole: HalfBox,
        color: Color,
    ) -> bool {
        forall|x: int, y: int| #[trigger] after.surface_spec().in_grid(x, y) ==> after.surface_spec().pixel(x, y)
            == painted(before.surface_spec().pixel(x, y), color, outer, hole, before.dpi_spec(), x, y)
    }

    /// A context drawing on a blank surface of `width` x `height` device
    /// pixels at `dpi` dots per inch.
    pub fn new(width: u32, height: u32, dpi: u32) -> (r: Result<RenderContext, RenderError>)
        ensures
            r is Err <==> width > MAX_SIDE || height > MAX_SIDE || !valid_dpi(dpi as int),
            r matches Ok(c) ==> {
                &&& c.wf()
                &&& c.surface_spec().width_px() == width
                &&& c.surface_spec().height_px() == height
                &&& c.surface_spec().density() == dpi
                &&& c.surface_spec().is_blank()
                &&& c.transform_spec() == identity()
                &&& c.color_spec() == initial_color()
                &&& c.context_spec() == 0
                &&& !c.painting_spec()
                &&& c.marks_spec() == Seq::<Mark>::empty()
            },
            r matches Err(e) ==> e == RenderError::Surface(
                if width > MAX_SIDE || height > MAX_SIDE {
                    SurfaceError::TooLarge
                } else {
                    SurfaceError::UnsupportedDensity
                },
            ),
    {
        match RasterSurface::new(width, height, dpi) {
            Ok(surface) => Ok(
                RenderContext {
                    surface,
                    transform: Point { x: 0, y: 0 },
                    color: Color { r: 0, g: 0, b: 0, a: 255 },
                    context: 0,
                    painting: false,
                    marks: Vec::new(),
                },
            ),
            Err(e) => Err(RenderError::Surface(e)),
        }
    }

    pub fn surface(&self) -> (r: &RasterSurface)
        ensures
            *r == self.surface_spec(),
    {
        &self.surface
    }

    pub fn transform(&self) -> (r: Point)
        ensures
            r == self.transform_spec(),
    {
        self.transform
    }

    pub fn color(&self) -> (r: Color)
        ensures
            r == self.color_spec(),
    {
        self.color
    }

    pub fn is_painting(&self) -> (r: bool)
        ensures
            r == self.painting_spec(),
    {
        self.painting
    }

    /// The generation of the text context.
    pub fn text_context(&self) -> (r: u64)
        ensures
            r == self.context_spec(),
    {
        self.context
    }

    pub fn marks(&self) -> (r: &[Mark])
        ensures
            r@ == self.marks_spec(),
    {
        self.marks.as_slice()
    }

    /// The pixel at `(x, y)` of the surface, or `None` off it.
    pub fn pixel_at(&self, x: u32, y: u32) -> (r: Option<Color>)
        requires
            self.wf(),
        ensures
            r == (if self.surface_spec().in_grid(x as int, y as int) {
                Some(self.surface_spec().pixel(x as int, y as int))
            } else {
                None
            }),
    {
        self.surface.pixel_at(x, y)
    }

    /// A font of family `name`; an unknown family is not an error, the
    /// native lookup substitutes one.
    pub fn new_font(&self, name: &str, size: u16, weight: FontWeight, style: FontStyle) -> (r: Result<
        Font,
        RenderError,
    >)
        ensures
            r matches Ok(f) && f.family_spec() == name.spec_bytes().push(0u8) && f.size_spec()
                == size && f.weight_spec() == weight && f.style_spec() == style,
    {
        Ok(Font::new(name, size, weight, style))
    }

    /// A layout of `text` in `f`, wrapped to `width` x `height` points and
    /// bound to this context's text context.
    pub fn new_text_layout(&self, text: &str, f: &Font, width: u32, height: u32) -> (r: Result<
        TextLayout,
        RenderError,
    >)
        ensures
            r matches Ok(l) && l.text_spec() == text@ && l.len_spec() == text.spec_bytes().len() as usize
                && l.font_spec() == *f && l.wrap_width() == width && l.wrap_height() == height
                && l.spans() == Seq::<crate::layout::StyleSpan>::empty() && !l.has_attrs()
                && l.context_spec() == self.context_spec(),
    {
        Ok(TextLayout::new(text, f, width, height, self.context))
    }

    /// Sets the current color, then replaces every pixel by it.
    pub fn clear(&mut self, col: Color)
        requires
            old(self).wf(),
        ensures
            final(self).wf(),
            final(self).color_spec() == col,
            final(self).transform_spec() == old(self).transform_spec(),
            final(self).context_spec() == old(self).context_spec(),
            final(self).painting_spec() == old(self).painting_spec(),
            final(self).marks_spec() == old(self).marks_spec(),
            final(self).surface_spec().width_px() == old(self).surface_spec().width_px(),
            final(self).surface_spec().height_px() == old(self).surface_spec().height_px(),
            final(self).surface_spec().density() == old(self).surface_spec().density(),
            forall|x: int, y: int| #[trigger] final(self).surface_spec().in_grid(x, y)
                ==> final(self).surface_spec().pixel(x, y) == col,
    {
        self.set_color(col);
        let ghost before = *self;
        let whole = HalfBox { x0: 0, y0: 0, x1: MAX_HALF, y1: MAX_HALF };
        let none = HalfBox { x0: 0, y0: 0, x1: 0, y1: 0 };
        self.surface.paint(whole, none, col);
        proof {
            before.surface_spec().lemma_wf_dpi();
            let d = before.dpi_spec();
            assert forall|x: int, y: int| #[trigger] self.surface_spec().in_grid(x, y) implies
                self.surface_spec().pixel(x, y) == col by {
                assert(MAX_HALF * d > 192 * x) by (nonlinear_arith)
                    requires 0 <= x < MAX_SIDE, d >= 96;
                assert(MAX_HALF * d > 192 * y) by (nonlinear_arith)
                    requires 0 <= y < MAX_SIDE, d >= 96;
            }
        }
    }

    /// Sets the color of the following stroke, fill, line and text calls.
    pub fn set_color(&mut self, col: Color)
        ensures
            final(self).color_spec() == col,
            final(self).surface_spec() == old(self).surface_spec(),
            final(self).transform_spec() == old(self).transform_spec(),
            final(self).context_spec() == old(self).context_spec(),
            final(self).painting_spec() == old(self).painting_spec(),
            final(self).marks_spec() == old(self).marks_spec(),
            final(self).wf() == old(self).wf(),
    {
        self.color = col;
    }

    /// Paints the outline of `rect`, `stroke_width` points wide and centred
    /// on its edges, in the current color.
    pub fn stroke_rect(&mut self, rect: Rect, stroke_width: u32)
        requires
            old(self).wf(),
        ensures
            Self::same_handle(old(self), final(self)),
            final(self).marks_spec() == old(self).marks_spec(),
            Self::painted_over(
                old(self),
                final(self),
                rect_box(rect, old(self).transform_spec(), stroke_width as int),
                rect_box(rect, old(self).transform_spec(), -stroke_width),
                old(self).color_spec(),
            ),
    {
        let outer = make_box(rect, self.transform, stroke_width as i64);
        let inner = make_box(rect, self.transform, -(stroke_width as i64));
        self.surface.paint(outer, inner, self.color);
    }

    /// Fills `rect` with the current color.
    pub fn fill_rect(&mut self, rect: Rect)
        requires
            old(self).wf(),
        ensures
            Self::same_handle(old(self), final(self)),
            final(self).marks_spec() == old(self).marks_spec(),
            Self::painted_over(
                old(self),
                final(self),
                rect_box(rect, old(self).transform_spec(), 0),
                empty_box(),
                old(self).color_spec(),
            ),
    {
        let outer = make_box(rect, self.transform, 0);
        let none = HalfBox { x0: 0, y0: 0, x1: 0, y1: 0 };
        self.surface.paint(outer, none, self.color);
    }

    /// Draws a line from `a` to `b`, `stroke_width` points wide, in the
    /// current color.
    pub fn draw_line(&mut self, a: Point, b: Point, stroke_width: u32)
        requires
            old(self).wf(),
        ensures
            final(self).surface_spec() == old(self).surface_spec(),
            Self::same_handle(old(self), final(self)),
            final(self).marks_spec() == old(self).marks_spec().push(
                Mark::Line {
                    from: a,
                    to: b,
                    width: stroke_width,
                    color: old(self).color_spec(),
                    offset: old(self).transform_spec(),
                },
            ),
    {
        self.marks.push(
            Mark::Line { from: a, to: b, width: stroke_width, color: self.color, offset: self.transform },
        );
    }

    /// Draws `s` in `f`, wrapped to `rect`, through a layout made for this
    /// call alone.
    pub fn draw_text(&mut self, rect: Rect, s: &str, f: &Font)
        requires
            old(self).wf(),
        ensures
            final(self).surface_spec() == old(self).surface_spec(),
            Self::same_handle(old(self), final(self)),
            final(self).marks_spec() == old(self).marks_spec().push(
                Mark::Text {
                    origin: Point { x: rect.x, y: rect.y },
                    bytes: s.spec_bytes().len() as usize,
                    color: old(self).color_spec(),
                    offset: old(self).transform_spec(),
                },
            ),
    {
        let w = if rect.w < 0 {
            0
        } else {
            rect.w as u32
        };
        let h = if rect.h < 0 {
            0
        } else {
            rect.h as u32
        };
        let layout = TextLayout::new(s, f, w, h, self.context);
        self.marks.push(
            Mark::Text {
                origin: Point { x: rect.x, y: rect.y },
                bytes: layout.len(),
                color: self.color,
                offset: self.transform,
            },
        );
    }

    /// Draws `txl` with its origin at `p`, first rebinding it to this
    /// context's text context if that was recreated since.
    pub fn draw_text_layout(&mut self, p: Point, txl: &mut TextLayout)
        requires
            old(self).wf(),
        ensures
            final(self).surface_spec() == old(self).surface_spec(),
            Self::same_handle(old(self), final(self)),
            final(self).marks_spec() == old(self).marks_spec().push(
                Mark::Text {
                    origin: p,
                    bytes: old(txl).len_spec() as usize,
                    color: old(self).color_spec(),
                    offset: old(self).transform_spec(),
                },
            ),
            final(txl).context_spec() == old(self).context_spec(),
            final(txl).text_spec() == old(txl).text_spec(),
            final(txl).len_spec() == old(txl).len_spec(),
            final(txl).font_spec() == old(txl).font_spec(),
            final(txl).wrap_width() == old(txl).wrap_width(),
            final(txl).wrap_height() == old(txl).wrap_height(),
            final(txl).spans() == old(txl).spans(),
            final(txl).has_attrs() == old(txl).has_attrs(),
    {
        if txl.context() != self.context {
            txl.update_context(self.context);
        }
        self.marks.push(
            Mark::Text { origin: p, bytes: txl.len(), color: self.color, offset: self.transform },
        );
    }

    /// Adds `p` to the translation of the following drawing calls.
    pub fn translate(&mut self, p: Point)
        requires
            old(self).transform_spec().can_add(p),
        ensures
            final(self).transform_spec() == old(self).transform_spec().sum(p),
            final(self).surface_spec() == old(self).surface_spec(),
            final(self).color_spec() == old(self).color_spec(),
            final(self).context_spec() == old(self).context_spec(),
            final(self).painting_spec() == old(self).painting_spec(),
            final(self).marks_spec() == old(self).marks_spec(),
            final(self).wf() == old(self).wf(),
    {
        self.transform = self.transform + p;
    }

    /// The size of the area drawn into, in points.
    pub fn bounds(&self) -> (r: Rect)
        requires
            self.wf(),
        ensures
            r == self.bounds_spec(),
    {
        self.surface.bounds()
    }

    /// Opens a frame: the translation goes back to the origin.
    pub fn start_paint(&mut self)
        requires
            old(self).wf(),
            !old(self).painting_spec(),
        ensures
            Self::started(old(self), final(self)),
    {
        self.transform = Point { x: 0, y: 0 };
        self.marks = Vec::new();
        self.painting = true;
    }

    /// Closes the frame.
    pub fn end_paint(&mut self)
        requires
            old(self).wf(),
            old(self).painting_spec(),
        ensures
            final(self).wf(),
            !final(self).painting_spec(),
            final(self).surface_spec() == old(self).surface_spec(),
            final(self).transform_spec() == old(self).transform_spec(),
            final(self).color_spec() == old(self).color_spec(),
            final(self).context_spec() == old(self).context_spec(),
            final(self).marks_spec() == old(self).marks_spec(),
    {
        self.painting = false;
    }

    /// Recreates the surface at `w` x `h` device pixels, then the drawing
    /// handle and the text context bound to it. Translation and color are not
    /// carried over.
    pub fn resize(&mut self, w: u32, h: u32)
        requires
            old(self).wf(),
            !old(self).painting_spec(),
            w <= MAX_SIDE,
            h <= MAX_SIDE,
        ensures
            Self::resized(old(self), final(self), w, h),
    {
        proof {
            self.lemma_wf();
        }
        let dpi = self.surface.dpi();
        self.rebuild(w, h, dpi);
    }

    /// As `resize`, and the surface takes density `dpi` from now on, as after
    /// the window moved to a display of another density.
    pub fn rebuild(&mut self, w: u32, h: u32, dpi: u32)
        requires
            old(self).wf(),
            !old(self).painting_spec(),
            w <= MAX_SIDE,
            h <= MAX_SIDE,
            valid_dpi(dpi as int),
        ensures
            Self::rebuilt(old(self), final(self), w, h, dpi),
    {
        self.surface.recreate(w, h, dpi);
        self.transform = Point { x: 0, y: 0 };
        self.color = Color { r: 0, g: 0, b: 0, a: 255 };
        self.context = self.context.wrapping_add(1);
        self.marks = Vec::new();
    }

    /// A device-pixel position, as raw input reports it, in points.
    pub fn pixels_to_points(&self, p: Point) -> (r: Point)
        requires
            self.wf(),
        ensures
            r.x == to_points(p.x as int, self.dpi_spec()),
            r.y == to_points(p.y as int, self.dpi_spec()),
    {
        self.surface.pixels_to_points(p)
    }

    /// A position in points in device pixels, rounded up.
    pub fn points_to_pixels(&self, p: Point) -> (r: Point)
        requires
            self.wf(),
            pixels_fit(p, self.dpi_spec()),
        ensures
            r.x == to_pixels(p.x as int, self.dpi_spec()),
            r.y == to_pixels(p.y as int, self.dpi_spec()),
    {
        proof {
            self.surface.lemma_wf_dpi();
        }
        dpi::points_to_pixels(p, self.surface.dpi())
    }
}

} // verus!
