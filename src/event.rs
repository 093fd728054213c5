use vstd::prelude::*;
use crate::context::RenderContext;
use crate::dpi::{to_points, MAX_DPI, POINTS_PER_INCH};
use crate::geometry::Point;
use crate::surface::MAX_SIDE;

verus! {

/// An event of the window's loop, reduced to what the loop decides on.
#[derive(Clone, Copy, Debug, PartialEq, Eq, Structural)]
pub enum LoopEvent {
    /// The cursor moved to `(x, y)` in device pixels.
    CursorMoved { x: i32, y: i32 },
    /// The window's drawable area is now `width` x `height` device pixels.
    Resized { width: u32, height: u32 },
    /// The window is now on a display of `dpi` dots per inch, and its
    /// drawable area is `width` x `height` device pixels.
    ScaleFactorChanged { dpi: u32, width: u32, height: u32 },
    /// Any other window event; it goes to the application as it is.
    Window,
    /// The loop has handled all pending events.
    MainEventsCleared,
    /// The window asks to be painted.
    RedrawRequested,
    /// An event that is not about the window.
    Other,
}

/// What the loop does after `step` has updated the render context.
#[derive(Clone, Copy, Debug, PartialEq, Eq, Structural)]
pub enum LoopAction {
    /// Hand the application a cursor-moved event at this position in points.
    ForwardCursor(Point),
    /// Hand the application the event as it came.
    Forward,
    /// Ask the window for a redraw, then hand the application the event.
    RedrawAndForward,
    /// Ask the window for a redraw.
    RequestRedraw,
    /// Paint a frame: `start_paint`, the application's drawing, `end_paint`.
    Paint,
    /// Nothing to do.
    Ignore,
}

/// `v`, but no more than `MAX_SIDE`.
pub open spec fn capped(v: u32) -> u32 {
    if v > MAX_SIDE {
        MAX_SIDE
    } else {
        v
    }
}

/// `dpi`, brought into the densities a surface accepts.
pub open spec fn clamped_dpi(dpi: u32) -> u32 {
    if dpi < POINTS_PER_INCH {
        POINTS_PER_INCH
    } else if dpi > MAX_DPI {
        MAX_DPI
    } else {
        dpi
    }
}

fn cap_side(v: u32) -> (r: u32)
    ensures
        r == capped(v),
{
    if v > MAX_SIDE {
        MAX_SIDE
    } else {
        v
    }
}

/// Decides one event of the window loop. Cursor positions are turned into
/// points; a resize recreates the context's surface (no side grows past
/// `MAX_SIDE`) and asks for a redraw, and so does a change of display
/// density, which the surface takes on (kept within `POINTS_PER_INCH ..=
/// MAX_DPI`).
pub fn step(rx: &mut RenderContext, ev: LoopEvent) -> (r: LoopAction)
    requires
        old(rx).wf(),
        !old(rx).painting_spec(),
    ensures
        final(rx).wf(),
        !final(rx).painting_spec(),
        match ev {
            LoopEvent::CursorMoved { x, y } => {
                &&& *final(rx) == *old(rx)
                &&& r == LoopAction::ForwardCursor(
                    Point {
                        x: to_points(x as int, old(rx).dpi_spec()) as i32,
                        y: to_points(y as int, old(rx).dpi_spec()) as i32,
                    },
                )
            },
            LoopEvent::Resized { width, height } => {
                &&& RenderContext::resized(old(rx), final(rx), capped(width), capped(height))
                &&& r == LoopAction::RedrawAndForward
            },
            LoopEvent::ScaleFactorChanged { dpi, width, height } => {
                &&& RenderContext::rebuilt(old(rx), final(rx), capped(width), capped(height), clamped_dpi(dpi))
                &&& r == LoopAction::RedrawAndForward
            },
            LoopEvent::Window => *final(rx) == *old(rx) && r == LoopAction::Forward,
            LoopEvent::MainEventsCleared => *final(rx) == *old(rx) && r == LoopAction::RequestRedraw,
            LoopEvent::RedrawRequested => *final(rx) == *old(rx) && r == LoopAction::Paint,
            LoopEvent::Other => *final(rx) == *old(rx) && r == LoopAction::Ignore,
        },
{
    match ev {
        LoopEvent::CursorMoved { x, y } => {
            let p = rx.pixels_to_points(Point { x, y });
            LoopAction::ForwardCursor(p)
        },
        LoopEvent::Resized { width, height } => {
            rx.resize(cap_side(width), cap_side(height));
            LoopAction::RedrawAndForward
        },
        LoopEvent::ScaleFactorChanged { dpi, width, height } => {
            let d = if dpi < POINTS_PER_INCH {
                POINTS_PER_INCH
            } else if dpi > MAX_DPI {
                MAX_DPI
            } else {
                dpi
            };
            rx.rebuild(cap_side(width), cap_side(height), d);
            LoopAction::RedrawAndForward
        },
        LoopEvent::Window => LoopAction::Forward,
        LoopEvent::MainEventsCleared => LoopAction::RequestRedraw,
        LoopEvent::RedrawRequested => LoopAction::Paint,
        LoopEvent::Other => LoopAction::Ignore,
    }
}

/// Process-wide setup to run once before the first window opens. The raster
/// backend needs none.
pub fn init() {
}

} // verus!
