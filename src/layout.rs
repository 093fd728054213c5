use vstd::prelude::*;
use std::ops::Range;
use crate::geometry::{Color, Point, Rect};
use crate::text::{Font, FontStyle, FontWeight};
use vstd::string::StringSliceAdditionalSpecFns;

verus! {

/// A style override for a range of text.
#[derive(Clone, Copy, Debug, PartialEq, Eq, Structural)]
pub enum TextAttr {
    Color(Color),
    Style(FontStyle),
    Weight(FontWeight),
    Underline(bool),
    /// A size in points.
    Size(u16),
}

/// The property a `TextAttr` sets; overrides of different properties do not
/// interact.
#[derive(Clone, Copy, Debug, PartialEq, Eq, Structural)]
pub enum AttrKind {
    Color,
    Style,
    Weight,
    Underline,
    Size,
}

impl TextAttr {
    pub open spec fn kind_spec(self) -> AttrKind {
        match self {
            TextAttr::Color(_) => AttrKind::Color,
            TextAttr::Style(_) => AttrKind::Style,
            TextAttr::Weight(_) => AttrKind::Weight,
            TextAttr::Underline(_) => AttrKind::Underline,
            TextAttr::Size(_) => AttrKind::Size,
        }
    }

    pub fn kind(&self) -> (r: AttrKind)
        ensures
            r == self.kind_spec(),
    {
        match self {
            TextAttr::Color(_) => AttrKind::Color,
            TextAttr::Style(_) => AttrKind::Style,
            TextAttr::Weight(_) => AttrKind::Weight,
            TextAttr::Underline(_) => AttrKind::Underline,
            TextAttr::Size(_) => AttrKind::Size,
        }
    }
}

/// An override applied to the half-open index range `[start, end)`.
#[derive(Clone, Copy, Debug, PartialEq, Eq, Structural)]
pub struct StyleSpan {
    pub start: u32,
    pub end: u32,
    pub attr: TextAttr,
}

impl StyleSpan {
    pub open spec fn sets(self, kind: AttrKind, i: int) -> bool {
        self.attr.kind_spec() == kind && self.start <= i < self.end
    }
}

/// The override of `kind` in force at index `i`: that of the last span that
/// sets `kind` over `i`.
pub open spec fn lookup(spans: Seq<StyleSpan>, kind: AttrKind, i: int) -> Option<TextAttr>
    decreases spans.len(),
{
    if spans.len() == 0 {
        None
    } else if spans.last().sets(kind, i) {
        Some(spans.last().attr)
    } else {
        lookup(spans.drop_last(), kind, i)
    }
}

/// Applying a span decides its own property over its range, and nothing else.
pub proof fn lemma_lookup_push(spans: Seq<StyleSpan>, s: StyleSpan, kind: AttrKind, i: int)
    ensures
        lookup(spans.push(s), kind, i) == (if s.sets(kind, i) {
            Some(s.attr)
        } else {
            lookup(spans, kind, i)
        }),
{
    assert(spans.push(s).drop_last() =~= spans);
}

/// Whether `v` fits an `i32`, else `i32::MAX`.
pub open spec fn clamp_i32(v: int) -> i32 {
    if v > i32::MAX {
        i32::MAX
    } else {
        v as i32
    }
}

fn clamp_u128(v: u128) -> (r: i32)
    ensures
        r == clamp_i32(v as int),
{
    if v > i32::MAX as u128 {
        i32::MAX
    } else {
        v as i32
    }
}

/// Width of one character cell for a font of `size` points.
pub open spec fn advance(size: int) -> int {
    if size / 2 == 0 {
        1
    } else {
        size / 2
    }
}

/// Height of one line for a font of `size` points.
pub open spec fn line_height(size: int) -> int {
    if size == 0 {
        1
    } else {
        size
    }
}

/// Cells that fit in a line `width` points wide; at least one.
pub open spec fn per_line(width: int, size: int) -> int {
    if width / advance(size) == 0 {
        1
    } else {
        width / advance(size)
    }
}

/// Lines that `len` cells take, `per` to a line.
pub open spec fn line_count(len: int, per: int) -> int {
    (len + per - 1) / per
}

/// A paragraph of text in one font, wrapped to a width, with per-range
/// style overrides.
///
/// Indices are byte offsets into the UTF-8 text. Geometry is measured on a
/// fixed pitch: every byte takes one cell, `advance(size)` wide and
/// `line_height(size)` high, from the layout font's size, and lines wrap
/// after `per_line(width, size)` cells.
///
/// Clones share the font; each clone keeps overrides of its own.
#[derive(Clone)]
pub struct TextLayout {
    text: String,
    len: usize,
    font: Font,
    width: u32,
    height: u32,
    attrs: Option<Vec<StyleSpan>>,
    context: u64,
}

impl TextLayout {
    pub closed spec fn text_spec(&self) -> Seq<char> {
        self.text@
    }

    /// Length of the text in bytes.
    pub closed spec fn len_spec(&self) -> nat {
        self.len as nat
    }

    pub closed spec fn font_spec(&self) -> Font {
        self.font
    }

    pub closed spec fn wrap_width(&self) -> nat {
        self.width as nat
    }

    pub closed spec fn wrap_height(&self) -> nat {
        self.height as nat
    }

    /// The overrides applied so far, oldest first.
    pub closed spec fn spans(&self) -> Seq<StyleSpan> {
        match self.attrs {
            Some(v) => v@,
            None => Seq::empty(),
        }
    }

    /// Whether the attribute list exists; it does from the first override on.
    pub closed spec fn has_attrs(&self) -> bool {
        self.attrs is Some
    }

    /// The text context the layout was last brought up to date with.
    pub closed spec fn context_spec(&self) -> u64 {
        self.context
    }

    pub open spec fn cell_w(&self) -> int {
        advance(self.font_spec().size_spec() as int)
    }

    pub open spec fn cell_h(&self) -> int {
        line_height(self.font_spec().size_spec() as int)
    }

    pub open spec fn cells_per_line(&self) -> int {
        per_line(self.wrap_width() as int, self.font_spec().size_spec() as int)
    }

    pub open spec fn lines(&self) -> int {
        line_count(self.len_spec() as int, self.cells_per_line())
    }

    pub open spec fn bounds_spec(&self) -> Rect {
        let used = if self.len_spec() < self.cells_per_line() {
            self.len_spec() as int
        } else {
            self.cells_per_line()
        };
        Rect {
            x: 0,
            y: 0,
            w: clamp_i32(used * self.cell_w()),
            h: clamp_i32(self.lines() * self.cell_h()),
        }
    }

    pub open spec fn char_bounds_spec(&self, index: int) -> Rect {
        Rect {
            x: clamp_i32((index % self.cells_per_line()) * self.cell_w()),
            y: clamp_i32((index / self.cells_per_line()) * self.cell_h()),
            w: self.cell_w() as i32,
            h: self.cell_h() as i32,
        }
    }

    /// The index whose cell holds `p`, if a character's cell does.
    pub open spec fn hit_index(&self, p: Point) -> Option<int> {
        if p.x < 0 || p.y < 0 {
            None
        } else {
            let col = (p.x as int) / self.cell_w();
            let row = (p.y as int) / self.cell_h();
            let index = row * self.cells_per_line() + col;
            if col >= self.cells_per_line() || index >= self.len_spec() {
                None
            } else {
                Some(index)
            }
        }
    }

    /// A layout of `text` in `font`, wrapped to `width` x `height` points,
    /// with no overrides, bound to text context `context`.
    pub fn new(text: &str, font: &Font, width: u32, height: u32, context: u64) -> (r: TextLayout)
        ensures
            r.text_spec() == text@,
            r.len_spec() == text.spec_bytes().len() as usize,
            r.font_spec() == *font,
            r.wrap_width() == width,
            r.wrap_height() == height,
            r.spans() == Seq::<StyleSpan>::empty(),
            !r.has_attrs(),
            r.context_spec() == context,
    {
        let owned = text.to_owned();
        TextLayout {
            text: owned,
            len: text.len(),
            font: font.clone_font(),
            width,
            height,
            attrs: None,
            context,
        }
    }

    pub fn text(&self) -> (r: &str)
        ensures
            r@ == self.text_spec(),
    {
        self.text.as_str()
    }

    /// Length of the text in bytes.
    pub fn len(&self) -> (r: usize)
        ensures
            r == self.len_spec(),
    {
        self.len
    }

    pub fn font(&self) -> (r: &Font)
        ensures
            *r == self.font_spec(),
    {
        &self.font
    }

    pub fn has_attributes(&self) -> (r: bool)
        ensures
            r == self.has_attrs(),
    {
        self.attrs.is_some()
    }

    /// The text context this layout was last brought up to date with.
    pub fn context(&self) -> (r: u64)
        ensures
            r == self.context_spec(),
    {
        self.context
    }

    /// Rebinds the layout to text context `context`; text and overrides stay.
    pub fn update_context(&mut self, context: u64)
        ensures
            final(self).context_spec() == context,
            final(self).text_spec() == old(self).text_spec(),
            final(self).len_spec() == old(self).len_spec(),
            final(self).font_spec() == old(self).font_spec(),
            final(self).wrap_width() == old(self).wrap_width(),
            final(self).wrap_height() == old(self).wrap_height(),
            final(self).spans() == old(self).spans(),
            final(self).has_attrs() == old(self).has_attrs(),
    {
        self.context = context;
    }

    /// Records `attr` over `[start, end)`, creating the attribute list on
    /// first use.
    fn apply(&mut self, start: u32, end: u32, attr: TextAttr)
        ensures
            final(self).spans() == old(self).spans().push(StyleSpan { start, end, attr }),
            final(self).has_attrs(),
            final(self).text_spec() == old(self).text_spec(),
            final(self).len_spec() == old(self).len_spec(),
            final(self).font_spec() == old(self).font_spec(),
            final(self).wrap_width() == old(self).wrap_width(),
            final(self).wrap_height() == old(self).wrap_height(),
            final(self).context_spec() == old(self).context_spec(),
            forall|k: AttrKind, i: int| #[trigger] lookup(final(self).spans(), k, i) == (if k
                == attr.kind_spec() && start <= i < end {
                Some(attr)
            } else {
                lookup(old(self).spans(), k, i)
            }),
    {
        let span = StyleSpan { start, end, attr };
        let mut list = match self.attrs.take() {
            Some(v) => v,
            None => Vec::new(),
        };
        list.push(span);
        self.attrs = Some(list);
        proof {
            assert forall|k: AttrKind, i: int| #[trigger] lookup(self.spans(), k, i) == (if k
                == attr.kind_spec() && start <= i < end {
                Some(attr)
            } else {
                lookup(old(self).spans(), k, i)
            }) by {
                lemma_lookup_push(old(self).spans(), span, k, i);
            }
        }
    }

    /// The override of `kind` in force at `index`, if any.
    pub fn attribute_at(&self, kind: AttrKind, index: u32) -> (r: Option<TextAttr>)
        ensures
            r == lookup(self.spans(), kind, index as int),
    {
        match &self.attrs {
            None => None,
            Some(list) => {
                let mut n: usize = list.len();
                proof {
                    assert(list@.subrange(0, n as int) =~= list@);
                }
                while n > 0
                    invariant
                        n <= list@.len(),
                        list@ == self.spans(),
                        lookup(list@, kind, index as int) == lookup(
                            list@.subrange(0, n as int),
                            kind,
                            index as int,
                        ),
                    decreases n,
                {
                    let s = list[n - 1];
                    proof {
                        assert(list@.subrange(0, n as int).drop_last() =~= list@.subrange(
                            0,
                            n - 1,
                        ));
                    }
                    if s.start <= index && index < s.end && s.attr.kind() == kind {
                        return Some(s.attr);
                    }
                    n = n - 1;
                }
                None
            },
        }
    }

    /// Colors `[range.start, range.end)` with `col`.
    pub fn color_range(&mut self, range: Range<u32>, col: Color)
        ensures
            final(self).spans() == old(self).spans().push(
                StyleSpan { start: range.start, end: range.end, attr: TextAttr::Color(col) },
            ),
            final(self).has_attrs(),
            final(self).text_spec() == old(self).text_spec(),
            final(self).len_spec() == old(self).len_spec(),
            final(self).font_spec() == old(self).font_spec(),
            final(self).wrap_width() == old(self).wrap_width(),
            final(self).wrap_height() == old(self).wrap_height(),
            final(self).context_spec() == old(self).context_spec(),
            forall|k: AttrKind, i: int| #[trigger] lookup(final(self).spans(), k, i) == (if k
                == AttrKind::Color && range.start <= i < range.end {
                Some(TextAttr::Color(col))
            } else {
                lookup(old(self).spans(), k, i)
            }),
    {
        self.apply(range.start, range.end, TextAttr::Color(col));
    }

    /// Sets the slant of `[range.start, range.end)`.
    pub fn style_range(&mut self, range: Range<u32>, style: FontStyle)
        ensures
            final(self).spans() == old(self).spans().push(
                StyleSpan { start: range.start, end: range.end, attr: TextAttr::Style(style) },
            ),
            final(self).has_attrs(),
            final(self).text_spec() == old(self).text_spec(),
            final(self).len_spec() == old(self).len_spec(),
            final(self).font_spec() == old(self).font_spec(),
            final(self).wrap_width() == old(self).wrap_width(),
            final(self).wrap_height() == old(self).wrap_height(),
            final(self).context_spec() == old(self).context_spec(),
            forall|k: AttrKind, i: int| #[trigger] lookup(final(self).spans(), k, i) == (if k
                == AttrKind::Style && range.start <= i < range.end {
                Some(TextAttr::Style(style))
            } else {
                lookup(old(self).spans(), k, i)
            }),
    {
        self.apply(range.start, range.end, TextAttr::Style(style));
    }

    /// Sets the weight of `[range.start, range.end)`.
    pub fn weight_range(&mut self, range: Range<u32>, weight: FontWeight)
        ensures
            final(self).spans() == old(self).spans().push(
                StyleSpan { start: range.start, end: range.end, attr: TextAttr::Weight(weight) },
            ),
            final(self).has_attrs(),
            final(self).text_spec() == old(self).text_spec(),
            final(self).len_spec() == old(self).len_spec(),
            final(self).font_spec() == old(self).font_spec(),
            final(self).wrap_width() == old(self).wrap_width(),
            final(self).wrap_height() == old(self).wrap_height(),
            final(self).context_spec() == old(self).context_spec(),
            forall|k: AttrKind, i: int| #[trigger] lookup(final(self).spans(), k, i) == (if k
                == AttrKind::Weight && range.start <= i < range.end {
                Some(TextAttr::Weight(weight))
            } else {
                lookup(old(self).spans(), k, i)
            }),
    {
        self.apply(range.start, range.end, TextAttr::Weight(weight));
    }

    /// Turns underlining of `[range.start, range.end)` on or off.
    pub fn underline_range(&mut self, range: Range<u32>, ul: bool)
        ensures
            final(self).spans() == old(self).spans().push(
                StyleSpan { start: range.start, end: range.end, attr: TextAttr::Underline(ul) },
            ),
            final(self).has_attrs(),
            final(self).text_spec() == old(self).text_spec(),
            final(self).len_spec() == old(self).len_spec(),
            final(self).font_spec() == old(self).font_spec(),
            final(self).wrap_width() == old(self).wrap_width(),
            final(self).wrap_height() == old(self).wrap_height(),
            final(self).context_spec() == old(self).context_spec(),
            forall|k: AttrKind, i: int| #[trigger] lookup(final(self).spans(), k, i) == (if k
                == AttrKind::Underline && range.start <= i < range.end {
                Some(TextAttr::Underline(ul))
            } else {
                lookup(old(self).spans(), k, i)
            }),
    {
        self.apply(range.start, range.end, TextAttr::Underline(ul));
    }

    /// Sets the size, in points, of `[range.start, range.end)`.
    pub fn size_range(&mut self, range: Range<u32>, size: u16)
        ensures
            final(self).spans() == old(self).spans().push(
                StyleSpan { start: range.start, end: range.end, attr: TextAttr::Size(size) },
            ),
            final(self).has_attrs(),
            final(self).text_spec() == old(self).text_spec(),
            final(self).len_spec() == old(self).len_spec(),
            final(self).font_spec() == old(self).font_spec(),
            final(self).wrap_width() == old(self).wrap_width(),
            final(self).wrap_height() == old(self).wrap_height(),
            final(self).context_spec() == old(self).context_spec(),
            forall|k: AttrKind, i: int| #[trigger] lookup(final(self).spans(), k, i) == (if k
                == AttrKind::Size && range.start <= i < range.end {
                Some(TextAttr::Size(size))
            } else {
                lookup(old(self).spans(), k, i)
            }),
    {
        self.apply(range.start, range.end, TextAttr::Size(size));
    }
    /// Cell width, line height and cells per line.
    fn cells(&self) -> (r: (u128, u128, u128))
        ensures
            r.0 == self.cell_w(),
            r.1 == self.cell_h(),
            r.2 == self.cells_per_line(),
            1 <= r.0 <= 32767,
            1 <= r.1 <= 65535,
            1 <= r.2 <= u32::MAX,
    {
        let size = self.font.size() as u128;
        let adv: u128 = if size / 2 == 0 {
            1
        } else {
            size / 2
        };
        let lh: u128 = if size == 0 {
            1
        } else {
            size
        };
        let per: u128 = if self.width as u128 / adv == 0 {
            1
        } else {
            self.width as u128 / adv
        };
        proof {
            assert(self.width as int / (adv as int) <= self.width as int) by (nonlinear_arith)
                requires adv >= 1;
        }
        (adv, lh, per)
    }

    /// The box the wrapped text takes, from the layout's origin.
    pub fn bounds(&self) -> (r: Rect)
        ensures
            r == self.bounds_spec(),
    {
        let (adv, lh, per) = self.cells();
        let len = self.len as u128;
        let used = if len < per {
            len
        } else {
            per
        };
        let lines = (len + per - 1) / per;
        proof {
            assert(used * adv <= per * 32767) by (nonlinear_arith)
                requires used <= per, adv <= 32767;
            assert(lines <= len + per) by (nonlinear_arith)
                requires lines == (len + per - 1) as int / (per as int), per >= 1, len >= 0;
            assert(lines * lh <= (len + per) * 65535) by (nonlinear_arith)
                requires lines <= len + per, lh <= 65535;
        }
        Rect { x: 0, y: 0, w: clamp_u128(used * adv), h: clamp_u128(lines * lh) }
    }

    /// The cell of the character at byte offset `index`.
    pub fn char_bounds(&self, index: usize) -> (r: Rect)
        ensures
            r == self.char_bounds_spec(index as int),
    {
        let (adv, lh, per) = self.cells();
        let i = index as u128;
        let col = i % per;
        let row = i / per;
        proof {
            assert(col * adv <= per * 32767) by (nonlinear_arith)
                requires col < per, adv <= 32767;
            assert(row <= i) by (nonlinear_arith)
                requires row == i as int / (per as int), per >= 1;
            assert(row * lh <= i * 65535) by (nonlinear_arith)
                requires row <= i, lh <= 65535;
        }
        Rect { x: clamp_u128(col * adv), y: clamp_u128(row * lh), w: adv as i32, h: lh as i32 }
    }

    /// The index and cell of the character under `p`, in the layout's own
    /// coordinates; `None` where no character's cell holds `p`.
    pub fn hit_test(&self, p: Point) -> (r: Option<(usize, Rect)>)
        ensures
            match self.hit_index(p) {
                None => r is None,
                Some(i) => r == Some((i as usize, self.char_bounds_spec(i))),
            },
    {
        if p.x < 0 || p.y < 0 {
            return None;
        }
        let (adv, lh, per) = self.cells();
        let col = p.x as u128 / adv;
        let row = p.y as u128 / lh;
        if col >= per {
            return None;
        }
        proof {
            assert(row <= p.y) by (nonlinear_arith)
                requires row == p.y as int / (lh as int), lh >= 1, p.y >= 0;
            assert(row * per <= (p.y as int) * per) by (nonlinear_arith)
                requires row <= p.y, per >= 1, row >= 0;
            assert((p.y as int) * per <= 0x8000_0000 * 0x1_0000_0000) by (nonlinear_arith)
                requires 0 <= p.y < 0x8000_0000, 1 <= per <= u32::MAX;
        }
        let index = row * per + col;
        if index >= self.len as u128 {
            return None;
        }
        Some((index as usize, self.char_bounds(index as usize)))
    }
}

} // verus!
