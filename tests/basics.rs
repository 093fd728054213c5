use runic::native::{
    dwrite_range, dwrite_style, dwrite_weight, pango_color, pango_underline, select_window_system,
    DWriteTextRange, WindowSystem,
};
use runic::{FontStyle, FontWeight, RenderError};
use runic::{
    init, step, Color, HResultError, IntoResult, LoopAction, LoopEvent, Point, Rect, RenderContext, S_OK,
};

#[test]
fn point_constructors_and_arithmetic() {
    assert_eq!(Point::xy(3, -4), Point { x: 3, y: -4 });
    assert_eq!(Point::x(7), Point { x: 7, y: 0 });
    assert_eq!(Point::y(7), Point { x: 0, y: 7 });
    assert_eq!(Point::default(), Point::xy(0, 0));
    assert_eq!(Point::from((5, 6)), Point::xy(5, 6));
    assert_eq!(Point::xy(1, 2) + Point::xy(10, 20), Point::xy(11, 22));
    assert_eq!(Point::xy(1, 2) - Point::xy(10, 20), Point::xy(-9, -18));
    let mut p = Point::xy(1, 2);
    assert_eq!(p.coord(0), 1);
    assert_eq!(p.coord(1), 2);
    p.set_coord(1, 9);
    p.set_coord(0, 8);
    assert_eq!(p, Point::xy(8, 9));
}

#[test]
fn rect_constructors() {
    assert_eq!(Rect::wh(4, 5), Rect { x: 0, y: 0, w: 4, h: 5 });
    assert_eq!(Rect::xywh(1, 2, 3, 4), Rect { x: 1, y: 2, w: 3, h: 4 });
    assert_eq!(Rect::pnwh(Point::xy(1, 2), 3, 4), Rect::xywh(1, 2, 3, 4));
    assert_eq!(Rect::from_points(Point::xy(1, 2), Point::xy(3, 4)), Rect::xywh(1, 2, 3, 4));
    assert_eq!(Rect::xywh(1, 2, 3, 4).offset(Point::xy(-1, 10)), Rect::xywh(0, 12, 3, 4));
}

#[test]
fn rect_contains_includes_edges() {
    let r = Rect::xywh(10, 10, 5, 5);
    assert!(r.contains(Point::xy(10, 10)));
    assert!(r.contains(Point::xy(15, 15)));
    assert!(r.contains(Point::xy(12, 14)));
    assert!(!r.contains(Point::xy(16, 12)));
    assert!(!r.contains(Point::xy(9, 12)));
    assert!(!r.contains(Point::xy(12, 16)));
    let far = Rect::xywh(i32::MAX - 1, 0, i32::MAX, 1);
    assert!(far.contains(Point::xy(i32::MAX, 1)));
}

#[test]
fn color_constructors_and_mix() {
    assert_eq!(Color::rgb(1, 2, 3), Color { r: 1, g: 2, b: 3, a: 255 });
    assert_eq!(Color::rgba(1, 2, 3, 4), Color { r: 1, g: 2, b: 3, a: 4 });
    assert_eq!(Color::black(), Color::rgb(0, 0, 0));
    assert_eq!(Color::white(), Color::rgb(255, 255, 255));
    let a = Color::rgba(0, 100, 255, 255);
    let b = Color::rgba(255, 200, 0, 0);
    assert_eq!(a.mix(b, 0), a);
    assert_eq!(a.mix(b, 255), b);
    // (0*155 + 255*100) / 255 = 100, (100*155 + 200*100) / 255 = 139.
    assert_eq!(a.mix(b, 100), Color::rgba(100, 139, 155, 155));
}

#[test]
fn hresult_into_result() {
    let ok = S_OK.into_result(|| 42u32);
    assert_eq!(ok, Ok(42));
    let failed = (-2147467259i32).into_result(|| 42u32);
    assert_eq!(failed, Err(HResultError::new(-2147467259)));
    assert_eq!(HResultError::new(5).code(), 5);
    assert_eq!(HResultError::new(5).description(), "Windows error");
    assert_eq!(RenderError::from(HResultError::new(-1)), RenderError::Native(HResultError::new(-1)));
    let mapped: Result<u32, RenderError> = (-5i32).into_result(|| 1u32).map_err(Into::into);
    assert_eq!(mapped, Err(RenderError::Native(HResultError { res: -5 })));
}

#[test]
fn loop_step_decisions() {
    init();
    let mut rx = RenderContext::new(400, 300, 192).expect("create render context");
    assert_eq!(step(&mut rx, LoopEvent::CursorMoved { x: 101, y: -3 }), LoopAction::ForwardCursor(Point::xy(50, -2)));
    assert_eq!(step(&mut rx, LoopEvent::MainEventsCleared), LoopAction::RequestRedraw);
    assert_eq!(step(&mut rx, LoopEvent::RedrawRequested), LoopAction::Paint);
    assert_eq!(step(&mut rx, LoopEvent::Window), LoopAction::Forward);
    assert_eq!(step(&mut rx, LoopEvent::Other), LoopAction::Ignore);
    rx.translate(Point::xy(5, 5));
    assert_eq!(step(&mut rx, LoopEvent::Resized { width: 800, height: 600 }), LoopAction::RedrawAndForward);
    assert_eq!(rx.bounds(), Rect::wh(400, 300));
    assert_eq!(rx.transform(), Point::xy(0, 0));
    assert_eq!(step(&mut rx, LoopEvent::Resized { width: 20000, height: 7 }), LoopAction::RedrawAndForward);
    assert_eq!(rx.surface().width(), 16384);
    assert_eq!(rx.surface().height(), 7);
}

#[test]
fn loop_step_takes_new_density() {
    let mut rx = RenderContext::new(400, 300, 96).expect("create render context");
    let event = LoopEvent::ScaleFactorChanged { dpi: 144, width: 600, height: 450 };
    assert_eq!(step(&mut rx, event), LoopAction::RedrawAndForward);
    assert_eq!(rx.surface().dpi(), 144);
    assert_eq!(rx.bounds(), Rect::wh(400, 300));
    assert_eq!(rx.pixels_to_points(Point::xy(3, 3)), Point::xy(2, 2));
    let event = LoopEvent::ScaleFactorChanged { dpi: 72, width: 10, height: 10 };
    assert_eq!(step(&mut rx, event), LoopAction::RedrawAndForward);
    assert_eq!(rx.surface().dpi(), 96);
    let event = LoopEvent::ScaleFactorChanged { dpi: 5000, width: 10, height: 10 };
    step(&mut rx, event);
    assert_eq!(rx.surface().dpi(), 960);
    assert_eq!(rx.bounds(), Rect::wh(1, 1));
}

#[test]
fn native_text_parameters() {
    assert_eq!(pango_color(Color::rgb(0, 128, 255)), (0, 32896, 65535));
    assert_eq!(pango_underline(true), 1);
    assert_eq!(pango_underline(false), 0);
    assert_eq!(dwrite_weight(FontWeight::Light), 300);
    assert_eq!(dwrite_weight(FontWeight::Regular), 400);
    assert_eq!(dwrite_weight(FontWeight::Bold), 700);
    assert_eq!(dwrite_style(FontStyle::Normal), 0);
    assert_eq!(dwrite_style(FontStyle::Italic), 2);
    assert_eq!(dwrite_range(5..15), DWriteTextRange { start_position: 5, length: 10 });
    assert_eq!(dwrite_range(7..7), DWriteTextRange { start_position: 7, length: 0 });
    assert_eq!(dwrite_range(9..3), DWriteTextRange { start_position: 9, length: 0 });
    assert_eq!(select_window_system(true, true), Ok(WindowSystem::Wayland));
    assert_eq!(select_window_system(false, true), Ok(WindowSystem::X11));
    assert_eq!(select_window_system(false, false), Err(RenderError::NoWindowSystem));
}
