use plotters_cairo::{
    is_zero_length, set_color, set_font, set_stroke_width, BackendColor, CairoBackend, CairoError, FontSlant,
    FontStyle, FontTransform, FontWeight, HPos, Op, Ratio, Rgb, ShapeStyle, TextAnchor,
    TextOffset, TextStyle, VPos,
};

fn color(r: u8, g: u8, b: u8, alpha: f64) -> BackendColor {
    BackendColor { alpha_bits: alpha.to_bits(), rgb: Rgb(r, g, b) }
}

fn shape(c: BackendColor, width: u32) -> ShapeStyle {
    ShapeStyle { color: c, stroke_width: width }
}

fn text_style(anchor: TextAnchor, transform: FontTransform) -> TextStyle {
    TextStyle {
        style: FontStyle::Normal,
        size_bits: 15.0f64.to_bits(),
        color: color(0, 0, 0, 1.0),
        anchor,
        transform,
    }
}

fn rgba(c: BackendColor) -> Op {
    let ratio = |v: u8| Ratio { numer: v as u32, denom: 255 };
    Op::SetSourceRgba {
        red: ratio(c.rgb.0),
        green: ratio(c.rgb.1),
        blue: ratio(c.rgb.2),
        alpha_bits: c.alpha_bits,
    }
}

fn backend() -> CairoBackend<()> {
    CairoBackend::new((), (640, 480)).unwrap()
}

#[test]
fn new_backend_has_its_size() {
    let b = CairoBackend::new("ctx", (800, 600)).unwrap();
    assert_eq!(b.get_size(), (800, 600));
    assert_eq!(*b.context(), "ctx");
}

#[test]
fn error_text() {
    assert_eq!(CairoError.to_string(), "CairoError");
}

#[test]
fn channels_are_divided_by_255() {
    for &(r, g, b) in &[(0u8, 0u8, 0u8), (255, 255, 255), (12, 128, 200), (1, 254, 77)] {
        let c = color(r, g, b, 0.25);
        match set_color(&c) {
            Op::SetSourceRgba { red, green, blue, alpha_bits } => {
                for (ratio, v) in [(red, r), (green, g), (blue, b)] {
                    let got = ratio.numer as f64 / ratio.denom as f64;
                    assert!((got - v as f64 / 255.0).abs() < 1e-12);
                }
                assert_eq!(f64::from_bits(alpha_bits), 0.25);
            }
            other => panic!("unexpected {:?}", other),
        }
    }
}

#[test]
fn stroke_width_op() {
    assert_eq!(set_stroke_width(3), Op::SetLineWidth { width: 3 });
}

#[test]
fn font_faces() {
    assert_eq!(FontStyle::Normal.face(), (FontSlant::Normal, FontWeight::Normal));
    assert_eq!(FontStyle::Bold.face(), (FontSlant::Normal, FontWeight::Bold));
    assert_eq!(FontStyle::Oblique.face(), (FontSlant::Oblique, FontWeight::Normal));
    assert_eq!(FontStyle::Italic.face(), (FontSlant::Italic, FontWeight::Normal));
    let mut t = text_style(TextAnchor { h_pos: HPos::Left, v_pos: VPos::Top }, FontTransform::Upright);
    t.style = FontStyle::Italic;
    assert_eq!(
        set_font(&t),
        vec![
            Op::SelectFontFace { slant: FontSlant::Italic, weight: FontWeight::Normal },
            Op::SetFontSize { size_bits: 15.0f64.to_bits() },
        ]
    );
}

#[test]
fn turn_degrees() {
    assert_eq!(FontTransform::Upright.degrees(), 0);
    assert_eq!(FontTransform::Rotate90.degrees(), 90);
    assert_eq!(FontTransform::Rotate180.degrees(), 180);
    assert_eq!(FontTransform::Rotate270.degrees(), 270);
    assert_eq!(FontTransform::Rotate270.quarter_turns(), 3);
}

#[test]
fn anchor_offsets() {
    let cases = [
        (HPos::Left, 0i8),
        (HPos::Right, -2),
        (HPos::Center, -1),
    ];
    let vcases = [(VPos::Top, 2i8), (VPos::Center, 1), (VPos::Bottom, 0)];
    for &(h, dx) in &cases {
        for &(v, dy) in &vcases {
            let off = TextAnchor { h_pos: h, v_pos: v }.offset();
            assert_eq!(off, TextOffset { dx_halves: dx, dy_halves: dy });
        }
    }
    // With a 40 by 10 extent: right moves by -40, centered by -20 and 5.
    let w = 40.0f64;
    let h = 10.0f64;
    let right = TextAnchor { h_pos: HPos::Right, v_pos: VPos::Center }.offset();
    assert_eq!(right.dx_halves as f64 * w / 2.0, -40.0);
    assert_eq!(right.dy_halves as f64 * h / 2.0, 5.0);
    let center = TextAnchor { h_pos: HPos::Center, v_pos: VPos::Top }.offset();
    assert_eq!(center.dx_halves as f64 * w / 2.0, -20.0);
    assert_eq!(center.dy_halves as f64 * h / 2.0, 10.0);
}

#[test]
fn prepare_scales_once() {
    let mut b = backend();
    assert_eq!(b.ensure_prepared(), vec![Op::ScaleToClip { width: 640, height: 480 }]);
    // A failed attempt leaves the backend unprepared: the scaling is planned again.
    b.record_prepare(false);
    assert_eq!(b.ensure_prepared(), vec![Op::ScaleToClip { width: 640, height: 480 }]);
    b.record_prepare(true);
    for _ in 0..3 {
        assert_eq!(b.ensure_prepared(), vec![]);
        let _ = b.draw_pixel((1, 1), color(1, 2, 3, 1.0));
    }
    assert_eq!(b.get_size(), (640, 480));
}

#[test]
fn pixel_plan() {
    let c = color(10, 20, 30, 0.5);
    assert_eq!(
        backend().draw_pixel((3, -4), c),
        vec![Op::Rectangle { x: 3, y: -4, width: 1, height: 1 }, rgba(c), Op::Fill]
    );
}

#[test]
fn line_plan() {
    let c = color(255, 0, 0, 1.0);
    assert_eq!(
        backend().draw_line((0, 0), (10, 20), &shape(c, 2)),
        vec![
            rgba(c),
            Op::SetLineWidth { width: 2 },
            Op::MoveTo { x: 0, y: 0 },
            Op::LineTo { x: 10, y: 20 },
            Op::Stroke,
        ]
    );
}

#[test]
fn rect_plans() {
    let c = color(0, 0, 255, 1.0);
    let s = shape(c, 1);
    assert_eq!(
        backend().draw_rect((5, 6), (15, 26), &s, true),
        vec![rgba(c), Op::SetLineWidth { width: 1 }, Op::Rectangle { x: 5, y: 6, width: 10, height: 20 }, Op::Fill]
    );
    assert_eq!(
        backend().draw_rect((5, 6), (15, 26), &s, false)[3],
        Op::Stroke
    );
    let wide = backend().draw_rect((i32::MIN, i32::MAX), (i32::MAX, i32::MIN), &s, true);
    assert_eq!(
        wide[2],
        Op::Rectangle { x: i32::MIN, y: i32::MAX, width: 4294967295, height: -4294967295 }
    );
}

#[test]
fn path_plan() {
    let c = color(1, 2, 3, 1.0);
    let s = shape(c, 4);
    assert_eq!(
        backend().draw_path(&[(0, 0), (1, 1), (2, 0)], &s),
        vec![
            rgba(c),
            Op::SetLineWidth { width: 4 },
            Op::MoveTo { x: 0, y: 0 },
            Op::LineTo { x: 1, y: 1 },
            Op::LineTo { x: 2, y: 0 },
            Op::Stroke,
        ]
    );
    // A single point is a path of zero length: nothing is drawn.
    assert!(backend().draw_path(&[(7, 8)], &s).is_empty());
    // A later point that differs makes the path drawn in full.
    assert_eq!(
        backend().draw_path(&[(7, 8), (7, 8), (7, 9)], &s),
        vec![
            rgba(c),
            Op::SetLineWidth { width: 4 },
            Op::MoveTo { x: 7, y: 8 },
            Op::LineTo { x: 7, y: 8 },
            Op::LineTo { x: 7, y: 9 },
            Op::Stroke,
        ]
    );
}

#[test]
fn zero_length_paths() {
    assert!(is_zero_length(&[]));
    assert!(is_zero_length(&[(3, 4)]));
    assert!(is_zero_length(&[(3, 4), (3, 4), (3, 4)]));
    assert!(!is_zero_length(&[(3, 4), (4, 4)]));
    assert!(!is_zero_length(&[(3, 4), (3, 4), (3, 5)]));
    let s = shape(color(1, 2, 3, 1.0), 1);
    let ops = backend().draw_path(&[(5, 5), (5, 5)], &s);
    assert!(!ops.contains(&Op::Stroke) && !ops.contains(&Op::Fill));
    assert!(ops.is_empty());
}

#[test]
fn polygon_plan() {
    let c = color(9, 9, 9, 0.75);
    let s = shape(c, 1);
    assert_eq!(
        backend().fill_polygon(&[(0, 0), (4, 0), (0, 3)], &s),
        vec![
            rgba(c),
            Op::SetLineWidth { width: 1 },
            Op::MoveTo { x: 0, y: 0 },
            Op::LineTo { x: 4, y: 0 },
            Op::LineTo { x: 0, y: 3 },
            Op::ClosePath,
            Op::Fill,
        ]
    );
}

#[test]
fn empty_path_and_polygon_draw_nothing() {
    let s = shape(color(1, 2, 3, 1.0), 1);
    let b = backend();
    assert!(b.draw_path(&[], &s).is_empty());
    assert!(b.fill_polygon(&[], &s).is_empty());
}

#[test]
fn circle_plans() {
    let c = color(0, 128, 0, 1.0);
    let s = shape(c, 2);
    assert_eq!(
        backend().draw_circle((50, 60), 5, &s, true),
        vec![
            rgba(c),
            Op::SetLineWidth { width: 2 },
            Op::NewSubPath,
            Op::Arc { x: 50, y: 60, radius: 5 },
            Op::Fill,
        ]
    );
    assert_eq!(backend().draw_circle((50, 60), 5, &s, false)[4], Op::Stroke);
}

#[test]
fn text_size_plan() {
    let mut t = text_style(TextAnchor { h_pos: HPos::Left, v_pos: VPos::Top }, FontTransform::Upright);
    t.style = FontStyle::Bold;
    assert_eq!(
        backend().estimate_text_size(&t),
        vec![
            Op::SelectFontFace { slant: FontSlant::Normal, weight: FontWeight::Bold },
            Op::SetFontSize { size_bits: 15.0f64.to_bits() },
            Op::MeasureText,
        ]
    );
}

#[test]
fn upright_text_plan() {
    let anchor = TextAnchor { h_pos: HPos::Center, v_pos: VPos::Bottom };
    let t = text_style(anchor, FontTransform::Upright);
    let ops = backend().draw_text(&t, (100, 200));
    assert_eq!(
        ops,
        vec![
            Op::SelectFontFace { slant: FontSlant::Normal, weight: FontWeight::Normal },
            Op::SetFontSize { size_bits: 15.0f64.to_bits() },
            rgba(t.color),
            Op::MeasureText,
            Op::MoveToText { x: 100, y: 200, offset: TextOffset { dx_halves: -1, dy_halves: 0 } },
            Op::ShowText,
        ]
    );
    assert!(!ops.iter().any(|o| matches!(o, Op::Save | Op::Restore | Op::Translate { .. } | Op::Rotate { .. })));
}

#[test]
fn turned_text_plan() {
    let anchor = TextAnchor { h_pos: HPos::Right, v_pos: VPos::Top };
    let t = text_style(anchor, FontTransform::Rotate90);
    let ops = backend().draw_text(&t, (10, 20));
    let upright = backend().draw_text(&text_style(anchor, FontTransform::Upright), (0, 0));
    let mut expected = vec![Op::Save, Op::Translate { x: 10, y: 20 }, Op::Rotate { quarter_turns: 1 }];
    expected.extend(upright);
    expected.push(Op::Restore);
    assert_eq!(ops, expected);
    assert_eq!(
        ops[7],
        Op::MoveToText { x: 0, y: 0, offset: TextOffset { dx_halves: -2, dy_halves: 2 } }
    );
}
