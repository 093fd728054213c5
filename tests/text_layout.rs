use runic::text::{convert_style, convert_weight, nul_terminated, PANGO_SCALE};
use runic::{AttrKind, Color, Font, FontStyle, FontWeight, Point, Rect, RenderContext, TextAttr};

fn context() -> RenderContext {
    RenderContext::new(640, 480, 96).expect("create render context")
}

#[test]
fn range_styles() {
    let mut rx = context();
    let font = rx.new_font("Arial", 40, FontWeight::Regular, FontStyle::Normal).expect("load font");
    let mut layout = rx
        .new_text_layout("The quick brown fox jumps over the lazy dog!", &font, 1000, 128)
        .expect("create text layout");
    let grey = Color::rgb(77, 77, 77);
    layout.color_range(0..3, grey);
    layout.color_range(31..34, grey);
    layout.color_range(10..15, Color::rgb(102, 51, 0));
    layout.color_range(35..39, Color::rgb(0, 51, 153));
    layout.color_range(26..30, Color::rgb(26, 153, 26));
    layout.style_range(4..9, FontStyle::Italic);
    layout.weight_range(20..25, FontWeight::Bold);
    layout.weight_range(0..3, FontWeight::Light);
    layout.weight_range(31..34, FontWeight::Light);
    layout.underline_range(26..30, true);
    layout.size_range(23..30, 20);
    let mut layout2 = rx
        .new_text_layout("This layout has dynamic styling!", &font, 1000, 128)
        .expect("create text layout");

    assert_eq!(layout.attribute_at(AttrKind::Color, 1), Some(TextAttr::Color(grey)));
    assert_eq!(layout.attribute_at(AttrKind::Color, 12), Some(TextAttr::Color(Color::rgb(102, 51, 0))));
    assert_eq!(layout.attribute_at(AttrKind::Color, 5), None);
    assert_eq!(layout.attribute_at(AttrKind::Style, 8), Some(TextAttr::Style(FontStyle::Italic)));
    assert_eq!(layout.attribute_at(AttrKind::Style, 9), None);
    assert_eq!(layout.attribute_at(AttrKind::Weight, 2), Some(TextAttr::Weight(FontWeight::Light)));
    assert_eq!(layout.attribute_at(AttrKind::Weight, 24), Some(TextAttr::Weight(FontWeight::Bold)));
    assert_eq!(layout.attribute_at(AttrKind::Underline, 26), Some(TextAttr::Underline(true)));
    assert_eq!(layout.attribute_at(AttrKind::Size, 23), Some(TextAttr::Size(20)));
    assert_eq!(layout.attribute_at(AttrKind::Size, 30), None);

    rx.start_paint();
    rx.clear(Color::rgb(26, 26, 31));
    rx.set_color(Color::rgb(224, 224, 204));
    rx.draw_text_layout(Point::xy(8, 8), &mut layout);
    let b = layout.bounds();
    rx.draw_text_layout(Point::xy(8, 16 + b.h), &mut layout2);
    rx.end_paint();

    // Hovering over the second layout underlines up to the character hit.
    layout2.underline_range(0..32, false);
    let hit = layout2.hit_test(Point::xy(45, 5));
    assert_eq!(hit, Some((2, Rect::xywh(40, 0, 20, 40))));
    if let Some((i, _)) = hit {
        layout2.underline_range(0..(i as u32 + 1), true);
        layout2.style_range((i as u32)..(i as u32 + 1), FontStyle::Italic);
    }
    assert_eq!(layout2.attribute_at(AttrKind::Underline, 2), Some(TextAttr::Underline(true)));
    assert_eq!(layout2.attribute_at(AttrKind::Underline, 3), Some(TextAttr::Underline(false)));
    assert_eq!(layout2.attribute_at(AttrKind::Style, 2), Some(TextAttr::Style(FontStyle::Italic)));
    assert_eq!(layout2.attribute_at(AttrKind::Style, 1), None);
}

#[test]
fn later_color_range_wins_where_ranges_overlap() {
    let rx = context();
    let font = rx.new_font("Sans", 12, FontWeight::Regular, FontStyle::Normal).expect("load font");
    let mut layout = rx
        .new_text_layout("0123456789012345678901234567890123456789abcd", &font, 400, 100)
        .expect("create text layout");
    let red = Color::rgb(255, 0, 0);
    let blue = Color::rgb(0, 0, 255);
    layout.color_range(0..10, red);
    layout.color_range(5..15, blue);
    for i in 0..5 {
        assert_eq!(layout.attribute_at(AttrKind::Color, i), Some(TextAttr::Color(red)));
    }
    for i in 5..15 {
        assert_eq!(layout.attribute_at(AttrKind::Color, i), Some(TextAttr::Color(blue)));
    }
    assert_eq!(layout.attribute_at(AttrKind::Color, 15), None);
    assert_eq!(layout.attribute_at(AttrKind::Weight, 7), None);
}

#[test]
fn properties_do_not_interact() {
    let rx = context();
    let font = rx.new_font("Sans", 12, FontWeight::Regular, FontStyle::Normal).expect("load font");
    let mut layout = rx.new_text_layout("abcdefghij", &font, 400, 100).expect("create text layout");
    assert!(!layout.has_attributes());
    layout.weight_range(0..10, FontWeight::Bold);
    assert!(layout.has_attributes());
    layout.size_range(2..4, 30);
    layout.underline_range(3..5, true);
    assert_eq!(layout.attribute_at(AttrKind::Weight, 3), Some(TextAttr::Weight(FontWeight::Bold)));
    assert_eq!(layout.attribute_at(AttrKind::Size, 3), Some(TextAttr::Size(30)));
    assert_eq!(layout.attribute_at(AttrKind::Underline, 3), Some(TextAttr::Underline(true)));
    assert_eq!(layout.attribute_at(AttrKind::Style, 3), None);
    layout.color_range(4..4, Color::white());
    assert_eq!(layout.attribute_at(AttrKind::Color, 4), None);
}

#[test]
fn text() {
    let mut rx = context();
    let font = rx.new_font("Arial", 32, FontWeight::Regular, FontStyle::Normal).expect("load font");
    let mut layout = rx.new_text_layout("Hello, 😌Text Layouts!😄", &font, 512, 512).expect("create text layout");
    assert_eq!(layout.len(), 28);
    // 16-point cells, 32 to a line.
    assert_eq!(layout.bounds(), Rect::xywh(0, 0, 448, 32));
    assert_eq!(layout.char_bounds(8), Rect::xywh(128, 0, 16, 32));
    let lb = layout.bounds().offset(Point::xy(8, 80));
    assert_eq!(lb, Rect::xywh(8, 80, 448, 32));
    let mouse = Point::xy(100, 90);
    let hit = layout.hit_test(Point::xy(mouse.x - lb.x, mouse.y - lb.y));
    assert_eq!(hit, Some((5, Rect::xywh(80, 0, 16, 32))));

    rx.start_paint();
    rx.clear(Color::rgb(255, 102, 13));
    rx.set_color(Color::rgb(77, 153, 51));
    rx.draw_text(Rect::xywh(8, 8, 512, 512), "Hello, draw_text!", &font);
    rx.set_color(Color::rgb(153, 51, 77));
    rx.draw_text_layout(Point::xy(8, 80), &mut layout);
    rx.set_color(Color::rgb(230, 26, 51));
    rx.stroke_rect(lb, 2);
    let cb = layout.char_bounds(8);
    rx.set_color(Color::rgb(0, 153, 0));
    rx.stroke_rect(cb.offset(Point::xy(8, 80)), 2);
    rx.end_paint();
    assert_eq!(rx.pixel_at(7, 100), Some(Color::rgb(230, 26, 51)));
    assert_eq!(rx.pixel_at(136, 100), Some(Color::rgb(0, 153, 0)));
    assert_eq!(rx.marks().len(), 2);
}

#[test]
fn layout_wraps_to_its_width() {
    let rx = context();
    let font = rx.new_font("Mono", 10, FontWeight::Regular, FontStyle::Normal).expect("load font");
    // 5-point cells, 4 to a line, 10 points a line.
    let layout = rx.new_text_layout("abcdefghij", &font, 20, 100).expect("create text layout");
    assert_eq!(layout.bounds(), Rect::xywh(0, 0, 20, 30));
    assert_eq!(layout.char_bounds(5), Rect::xywh(5, 10, 5, 10));
    assert_eq!(layout.hit_test(Point::xy(7, 12)), Some((5, Rect::xywh(5, 10, 5, 10))));
    assert_eq!(layout.hit_test(Point::xy(12, 25)), None);
    assert_eq!(layout.hit_test(Point::xy(9, 25)), Some((9, Rect::xywh(5, 20, 5, 10))));
}

#[test]
fn hit_test_boundary() {
    let rx = context();
    let font = rx.new_font("Mono", 10, FontWeight::Regular, FontStyle::Normal).expect("load font");
    let layout = rx.new_text_layout("wrapped text here", &font, 40, 100).expect("create text layout");
    let b = layout.bounds();
    assert_eq!(b, Rect::xywh(0, 0, 40, 30));
    assert_eq!(layout.hit_test(Point::xy(0, 0)), Some((0, Rect::xywh(0, 0, 5, 10))));
    assert_eq!(layout.hit_test(Point::xy(b.w + 1, 0)), None);
    assert_eq!(layout.hit_test(Point::xy(0, b.h + 1)), None);
    assert_eq!(layout.hit_test(Point::xy(-1, 0)), None);
    assert_eq!(layout.hit_test(Point::xy(5, -1)), None);
}

#[test]
fn empty_layout_hits_nothing() {
    let rx = context();
    let font = rx.new_font("Mono", 10, FontWeight::Regular, FontStyle::Normal).expect("load font");
    let layout = rx.new_text_layout("", &font, 40, 100).expect("create text layout");
    assert_eq!(layout.bounds(), Rect::xywh(0, 0, 0, 0));
    assert_eq!(layout.hit_test(Point::xy(0, 0)), None);
}

#[test]
fn font_outlives_its_handles() {
    let rx = context();
    let font = rx.new_font("Serif", 18, FontWeight::Bold, FontStyle::Italic).expect("load font");
    assert_eq!(font.share_count(), 1);
    let layout = rx.new_text_layout("kept alive", &font, 100, 100).expect("create text layout");
    assert_eq!(font.share_count(), 2);
    let copy = layout.clone();
    assert_eq!(font.share_count(), 3);
    drop(font);
    assert_eq!(layout.font().share_count(), 2);
    assert_eq!(layout.font().size(), 18);
    assert_eq!(layout.font().weight(), FontWeight::Bold);
    assert_eq!(layout.font().style(), FontStyle::Italic);
    assert_eq!(layout.font().family(), b"Serif\0");
    drop(copy);
    assert_eq!(layout.font().share_count(), 1);
    assert_eq!(layout.text(), "kept alive");
}

#[test]
fn layout_rebinds_after_resize() {
    let mut rx = context();
    let font = rx.new_font("Sans", 12, FontWeight::Regular, FontStyle::Normal).expect("load font");
    let mut layout = rx.new_text_layout("resync", &font, 100, 100).expect("create text layout");
    assert_eq!(layout.context(), rx.text_context());
    rx.resize(320, 200);
    assert_ne!(layout.context(), rx.text_context());
    rx.start_paint();
    rx.draw_text_layout(Point::xy(0, 0), &mut layout);
    rx.end_paint();
    assert_eq!(layout.context(), rx.text_context());
    assert_eq!(layout.text(), "resync");
}

#[test]
fn font_descriptions_for_pango() {
    assert_eq!(convert_weight(FontWeight::Light), 300);
    assert_eq!(convert_weight(FontWeight::Regular), 500);
    assert_eq!(convert_weight(FontWeight::Bold), 700);
    assert_eq!(convert_style(FontStyle::Normal), 0);
    assert_eq!(convert_style(FontStyle::Italic), 2);
    assert_eq!(nul_terminated("Arial"), b"Arial\0".to_vec());
    assert_eq!(nul_terminated(""), vec![0u8]);
    assert_eq!(nul_terminated("é"), vec![0xc3u8, 0xa9, 0]);
    let font = Font::new("Arial", 40, FontWeight::Regular, FontStyle::Normal);
    assert_eq!(font.pango_size(), 40 * PANGO_SCALE);
    assert_eq!(font.clone_font().share_count(), 2);
}
