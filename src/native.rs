use vstd::prelude::*;
use std::ops::Range;
use crate::error::RenderError;
use crate::geometry::Color;
use crate::text::{FontStyle, FontWeight};

verus! {

/// A 16-bit Pango color channel for an 8-bit one: 0 stays 0, 255 becomes 65535.
pub open spec fn pango_channel(c: u8) -> u16 {
    (c * 257) as u16
}

/// The red, green and blue channels a Pango foreground attribute takes.
pub fn pango_color(col: Color) -> (r: (u16, u16, u16))
    ensures
        r == (pango_channel(col.r), pango_channel(col.g), pango_channel(col.b)),
{
    (col.r as u16 * 257, col.g as u16 * 257, col.b as u16 * 257)
}

/// The Pango underline kind: single, or none.
pub fn pango_underline(ul: bool) -> (r: i32)
    ensures
        r == (if ul { 1i32 } else { 0i32 }),
{
    if ul {
        1
    } else {
        0
    }
}

pub open spec fn dwrite_weight_of(w: FontWeight) -> u32 {
    match w {
        FontWeight::Light => 300,
        FontWeight::Regular => 400,
        FontWeight::Bold => 700,
    }
}

pub open spec fn dwrite_style_of(s: FontStyle) -> u32 {
    match s {
        FontStyle::Normal => 0,
        FontStyle::Italic => 2,
    }
}

/// The DirectWrite weight for `weight`: light, regular and bold.
pub fn dwrite_weight(weight: FontWeight) -> (r: u32)
    ensures
        r == dwrite_weight_of(weight),
{
    match weight {
        FontWeight::Light => 300,
        FontWeight::Regular => 400,
        FontWeight::Bold => 700,
    }
}

/// The DirectWrite style for `style`: normal or italic.
pub fn dwrite_style(style: FontStyle) -> (r: u32)
    ensures
        r == dwrite_style_of(style),
{
    match style {
        FontStyle::Normal => 0,
        FontStyle::Italic => 2,
    }
}

/// A DirectWrite text range: a start position and a length.
#[derive(Clone, Copy, Debug, PartialEq, Eq, Structural)]
pub struct DWriteTextRange {
    pub start_position: u32,
    pub length: u32,
}

/// The DirectWrite range for `[range.start, range.end)`; an empty or
/// reversed range has length zero.
pub fn dwrite_range(range: Range<u32>) -> (r: DWriteTextRange)
    ensures
        r.start_position == range.start,
        r.length == (if range.end > range.start { range.end - range.start } else { 0 }),
{
    let length = if range.end > range.start {
        range.end - range.start
    } else {
        0
    };
    DWriteTextRange { start_position: range.start, length }
}

/// The window systems a surface can bind to on Unix.
#[derive(Clone, Copy, Debug, PartialEq, Eq, Structural)]
pub enum WindowSystem {
    Wayland,
    X11,
}

/// Picks the window system for a new surface: Wayland where its display is
/// there, else X11 where its display is there, else none.
pub fn select_window_system(has_wayland: bool, has_x11: bool) -> (r: Result<WindowSystem, RenderError>)
    ensures
        has_wayland ==> r == Ok::<WindowSystem, RenderError>(WindowSystem::Wayland),
        !has_wayland && has_x11 ==> r == Ok::<WindowSystem, RenderError>(WindowSystem::X11),
        !has_wayland && !has_x11 ==> r == Err::<WindowSystem, RenderError>(RenderError::NoWindowSystem),
{
    if has_wayland {
        Ok(WindowSystem::Wayland)
    } else if has_x11 {
        Ok(WindowSystem::X11)
    } else {
        Err(RenderError::NoWindowSystem)
    }
}

} // verus!
