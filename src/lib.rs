//! A small portable drawing surface: integer geometry, a stateful render
//! context over a raster surface with a density of its own, shareable fonts,
//! and text layouts with per-range style overrides.
//!
//! Drawing coordinates are device-independent points; the surface converts
//! them into device pixels at its density. A frame is bracketed by
//! `start_paint` and `end_paint`, and `resize` happens only between frames.
pub mod context;
pub mod dpi;
pub mod error;
pub mod event;
pub mod geometry;
pub mod laws;
pub mod layout;
pub mod native;
pub mod surface;
pub mod text;

pub use context::{Mark, RenderContext};
pub use error::{HResultError, IntoResult, RenderError, HRESULT, S_OK};
pub use event::{init, step, LoopAction, LoopEvent};
pub use geometry::{Color, Point, Rect};
pub use layout::{AttrKind, StyleSpan, TextAttr, TextLayout};
pub use surface::{RasterSurface, SurfaceError};
pub use text::{Font, FontStyle, FontWeight};
