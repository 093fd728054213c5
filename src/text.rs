use vstd::prelude::*;
use std::rc::Rc;
use vstd::string::StringSliceAdditionalSpecFns;

verus! {

/// Pango units per point.
pub const PANGO_SCALE: i32 = 1024;

/// The weights a font or a range of text can take.
#[derive(Clone, Copy, Debug, PartialEq, Eq, Structural)]
pub enum FontWeight {
    Light,
    Regular,
    Bold,
}

/// The slants a font or a range of text can take.
#[derive(Clone, Copy, Debug, PartialEq, Eq, Structural)]
pub enum FontStyle {
    Normal,
    Italic,
}

pub open spec fn pango_weight(w: FontWeight) -> i32 {
    match w {
        FontWeight::Light => 300,
        FontWeight::Regular => 500,
        FontWeight::Bold => 700,
    }
}

pub open spec fn pango_style(s: FontStyle) -> i32 {
    match s {
        FontStyle::Normal => 0,
        FontStyle::Italic => 2,
    }
}

/// The Pango weight for `weight`: light, medium and bold.
pub fn convert_weight(weight: FontWeight) -> (r: i32)
    ensures
        r == pango_weight(weight),
{
    match weight {
        FontWeight::Light => 300,
        FontWeight::Regular => 500,
        FontWeight::Bold => 700,
    }
}

/// The Pango style for `style`: normal or italic.
pub fn convert_style(style: FontStyle) -> (r: i32)
    ensures
        r == pango_style(style),
{
    match style {
        FontStyle::Normal => 0,
        FontStyle::Italic => 2,
    }
}

/// `name`'s UTF-8 bytes followed by a terminating zero, as a native family
/// lookup takes it.
pub fn nul_terminated(name: &str) -> (r: Vec<u8>)
    ensures
        r@ == name.spec_bytes().push(0u8),
{
    let bytes = name.as_bytes();
    let mut out: Vec<u8> = Vec::new();
    let mut i: usize = 0;
    while i < bytes.len()
        invariant
            i <= bytes@.len(),
            bytes@ == name.spec_bytes(),
            out@ == bytes@.subrange(0, i as int),
        decreases bytes@.len() - i,
    {
        out.push(bytes[i]);
        i = i + 1;
        proof {
            assert(out@ =~= bytes@.subrange(0, i as int));
        }
    }
    out.push(0u8);
    proof {
        assert(bytes@.subrange(0, bytes@.len() as int) =~= bytes@);
    }
    out
}

/// An immutable font description: family, size in points, weight and style.
pub struct FontDesc {
    family: Vec<u8>,
    size: u16,
    weight: FontWeight,
    style: FontStyle,
}

/// A shareable font: clones share one description, which lives as long as
/// the last font or text layout that holds it.
#[derive(Clone)]
pub struct Font {
    desc: Rc<FontDesc>,
}

/// Relies on `Rc::strong_count`: the number of handles sharing the value,
/// the asking one included.
#[verifier::external_body]
fn strong_count(rc: &Rc<FontDesc>) -> (r: usize)
    ensures
        r >= 1,
{
    Rc::strong_count(rc)
}

/// Relies on `Rc::clone`: the new handle shares the same value.
#[verifier::external_body]
fn share(rc: &Rc<FontDesc>) -> (r: Rc<FontDesc>)
    ensures
        r == *rc,
{
    Rc::clone(rc)
}

impl Font {
    /// The family name, zero-terminated.
    pub closed spec fn family_spec(&self) -> Seq<u8> {
        self.desc.family@
    }

    pub closed spec fn size_spec(&self) -> u16 {
        self.desc.size
    }

    pub closed spec fn weight_spec(&self) -> FontWeight {
        self.desc.weight
    }

    pub closed spec fn style_spec(&self) -> FontStyle {
        self.desc.style
    }

    /// A font of family `name`, `size` points, `weight` and `style`. An
    /// unknown family is left for the native font lookup to substitute.
    pub fn new(name: &str, size: u16, weight: FontWeight, style: FontStyle) -> (r: Font)
        ensures
            r.family_spec() == name.spec_bytes().push(0u8),
            r.size_spec() == size,
            r.weight_spec() == weight,
            r.style_spec() == style,
    {
        let desc = FontDesc { family: nul_terminated(name), size, weight, style };
        Font { desc: Rc::new(desc) }
    }

    pub fn size(&self) -> (r: u16)
        ensures
            r == self.size_spec(),
    {
        self.desc.size
    }

    pub fn weight(&self) -> (r: FontWeight)
        ensures
            r == self.weight_spec(),
    {
        self.desc.weight
    }

    pub fn style(&self) -> (r: FontStyle)
        ensures
            r == self.style_spec(),
    {
        self.desc.style
    }

    /// The family name, zero-terminated.
    pub fn family(&self) -> (r: &[u8])
        ensures
            r@ == self.family_spec(),
    {
        self.desc.family.as_slice()
    }

    /// The size in Pango units.
    pub fn pango_size(&self) -> (r: i32)
        ensures
            r == self.size_spec() * PANGO_SCALE,
    {
        self.desc.size as i32 * PANGO_SCALE
    }

    /// Another handle on the same description.
    pub fn clone_font(&self) -> (r: Font)
        ensures
            r == *self,
    {
        Font { desc: share(&self.desc) }
    }

    /// How many fonts and text layouts share this font's description.
    pub fn share_count(&self) -> (r: usize)
        ensures
            r >= 1,
    {
        strong_count(&self.desc)
    }
}

} // verus!
