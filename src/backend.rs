use vstd::prelude::*;

use crate::ops::{channel_ratio, offset_of, Op, Ratio};
use crate::style::{face_of, turns_of, BackendColor, ShapeStyle, TextStyle};

verus! {

/// The error type of the backend's own operations.
#[derive(Clone, Copy, Debug, PartialEq, Eq, Structural)]
pub struct CairoError;

impl CairoError {
    /// The text by which this error is shown.
    pub fn to_string(&self) -> (r: String)
        ensures
            r@ == "CairoError"@,
    {
        "CairoError".to_owned()
    }
}

/// What a backend is: the size of the drawing and whether the one-time
/// scaling to the context's clip extents has been carried out.
#[derive(Clone, Copy, Debug, PartialEq, Eq, Structural)]
pub struct BackendState {
    pub width: u32,
    pub height: u32,
    pub prepared: bool,
}

/// A drawing backend over a graphics context `C` (most often a shared borrow
/// of a context that someone else owns). Each drawing method returns the
/// operations that carry the request out on that context.
pub struct CairoBackend<C> {
    context: C,
    width: u32,
    height: u32,
    init_flag: bool,
}

impl<C> View for CairoBackend<C> {
    type V = BackendState;

    closed spec fn view(&self) -> BackendState {
        BackendState { width: self.width, height: self.height, prepared: self.init_flag }
    }
}

/// Sets the source color: each channel divided by 255, the opacity unchanged.
pub open spec fn color_op(c: BackendColor) -> Op {
    Op::SetSourceRgba {
        red: channel_ratio(c.rgb.0),
        green: channel_ratio(c.rgb.1),
        blue: channel_ratio(c.rgb.2),
        alpha_bits: c.alpha_bits,
    }
}

/// Sets the stroke width.
pub open spec fn width_op(w: u32) -> Op {
    Op::SetLineWidth { width: w }
}

/// The color, then the stroke width, of a shape style.
pub open spec fn style_ops(s: ShapeStyle) -> Seq<Op> {
    seq![color_op(s.color), width_op(s.stroke_width)]
}

/// The face, then the size, of a text style's font.
pub open spec fn font_ops(t: TextStyle) -> Seq<Op> {
    seq![
        Op::SelectFontFace { slant: face_of(t.style).0, weight: face_of(t.style).1 },
        Op::SetFontSize { size_bits: t.size_bits },
    ]
}

/// Fills the path when `fill` holds, strokes it otherwise.
pub open spec fn paint_op(fill: bool) -> Op {
    if fill {
        Op::Fill
    } else {
        Op::Stroke
    }
}

/// Traces a polyline: a move to its first point and a segment to each later one.
pub open spec fn trace_ops(path: Seq<(i32, i32)>) -> Seq<Op> {
    Seq::new(
        path.len(),
        |i: int|
            if i == 0 {
                Op::MoveTo { x: path[0].0, y: path[0].1 }
            } else {
                Op::LineTo { x: path[i].0, y: path[i].1 }
            },
    )
}

/// Scaling to the clip extents, planned only while the backend is unprepared.
pub open spec fn prepare_ops(s: BackendState) -> Seq<Op> {
    if s.prepared {
        seq![]
    } else {
        seq![Op::ScaleToClip { width: s.width, height: s.height }]
    }
}

/// The state once the scaling has been carried out.
pub open spec fn prepared_state(s: BackendState) -> BackendState {
    BackendState { prepared: true, ..s }
}

/// A one by one square at the point, filled with the color.
pub open spec fn pixel_ops(p: (i32, i32), c: BackendColor) -> Seq<Op> {
    seq![Op::Rectangle { x: p.0, y: p.1, width: 1, height: 1 }, color_op(c), Op::Fill]
}

/// A stroked segment between two points.
pub open spec fn line_ops(from: (i32, i32), to: (i32, i32), s: ShapeStyle) -> Seq<Op> {
    style_ops(s) + seq![
        Op::MoveTo { x: from.0, y: from.1 },
        Op::LineTo { x: to.0, y: to.1 },
        Op::Stroke,
    ]
}

/// The rectangle spanned by two corners, filled or stroked.
pub open spec fn rect_ops(ul: (i32, i32), br: (i32, i32), s: ShapeStyle, fill: bool) -> Seq<Op> {
    style_ops(s) + seq![
        Op::Rectangle { x: ul.0, y: ul.1, width: (br.0 - ul.0) as i64, height: (br.1 - ul.1) as i64 },
        paint_op(fill),
    ]
}

/// The state after an attempt at the planned scaling: prepared when the
/// attempt succeeded, unchanged otherwise.
pub open spec fn recorded_state(s: BackendState, scaled: bool) -> BackendState {
    if scaled {
        prepared_state(s)
    } else {
        s
    }
}

/// A path of zero length: every point of it (if any) is its first point.
pub open spec fn zero_length(path: Seq<(i32, i32)>) -> bool {
    forall|i: int| 0 <= i < path.len() ==> #[trigger] path[i] == path[0]
}

/// A stroked polyline; nothing at all for a path of zero length (an empty
/// path, a single point, or the same point repeated).
pub open spec fn path_ops(path: Seq<(i32, i32)>, s: ShapeStyle) -> Seq<Op> {
    if zero_length(path) {
        seq![]
    } else {
        style_ops(s) + trace_ops(path) + seq![Op::Stroke]
    }
}

/// A closed, filled polygon; nothing at all for an empty one.
pub open spec fn polygon_ops(path: Seq<(i32, i32)>, s: ShapeStyle) -> Seq<Op> {
    if path.len() == 0 {
        seq![]
    } else {
        style_ops(s) + trace_ops(path) + seq![Op::ClosePath, Op::Fill]
    }
}

/// A full circle about the center, filled or stroked.
pub open spec fn circle_ops(c: (i32, i32), radius: u32, s: ShapeStyle, fill: bool) -> Seq<Op> {
    style_ops(s) + seq![
        Op::NewSubPath,
        Op::Arc { x: c.0, y: c.1, radius: radius },
        paint_op(fill),
    ]
}

/// Measuring text in a font: select the font, then measure.
pub open spec fn measure_ops(t: TextStyle) -> Seq<Op> {
    font_ops(t) + seq![Op::MeasureText]
}

/// Text drawn upright with its anchor at `(x, y)` of the current user space.
pub open spec fn upright_text_ops(t: TextStyle, x: i32, y: i32) -> Seq<Op> {
    font_ops(t) + seq![
        color_op(t.color),
        Op::MeasureText,
        Op::MoveToText { x: x, y: y, offset: offset_of(t.anchor) },
        Op::ShowText,
    ]
}

/// Text anchored at `pos`. A turned run saves the graphics state, moves the
/// origin to `pos`, turns user space, draws the text upright at the new
/// origin and restores the state.
pub open spec fn text_ops(t: TextStyle, pos: (i32, i32)) -> Seq<Op> {
    if turns_of(t.transform) == 0 {
        upright_text_ops(t, pos.0, pos.1)
    } else {
        seq![
            Op::Save,
            Op::Translate { x: pos.0, y: pos.1 },
            Op::Rotate { quarter_turns: turns_of(t.transform) },
        ] + upright_text_ops(t, 0, 0) + seq![Op::Restore]
    }
}

/// The operation that sets the source color to `color`.
pub fn set_color(color: &BackendColor) -> (r: Op)
    ensures
        r == color_op(*color),
{
    Op::SetSourceRgba {
        red: Ratio::of_channel(color.rgb.0),
        green: Ratio::of_channel(color.rgb.1),
        blue: Ratio::of_channel(color.rgb.2),
        alpha_bits: color.alpha_bits,
    }
}

/// The operation that sets the stroke width.
pub fn set_stroke_width(width: u32) -> (r: Op)
    ensures
        r == width_op(width),
{
    Op::SetLineWidth { width }
}

/// The operations that select the font of a text style.
pub fn set_font(style: &TextStyle) -> (r: Vec<Op>)
    ensures
        r@ == font_ops(*style),
{
    let (slant, weight) = style.style.face();
    let mut ops: Vec<Op> = Vec::new();
    ops.push(Op::SelectFontFace { slant, weight });
    ops.push(Op::SetFontSize { size_bits: style.size_bits });
    assert(ops@ =~= font_ops(*style));
    ops
}

fn push_style(ops: &mut Vec<Op>, style: &ShapeStyle)
    ensures
        final(ops)@ == old(ops)@ + style_ops(*style),
{
    ops.push(set_color(&style.color));
    ops.push(set_stroke_width(style.stroke_width));
    assert(final(ops)@ =~= old(ops)@ + style_ops(*style));
}

/// Whether the path has zero length: all its points are its first point.
pub fn is_zero_length(path: &[(i32, i32)]) -> (r: bool)
    ensures
        r == zero_length(path@),
{
    if path.len() == 0 {
        return true;
    }
    let first = path[0];
    let mut i: usize = 1;
    while i < path.len()
        invariant
            1 <= i <= path@.len(),
            first == path@[0],
            forall|j: int| 0 <= j < i ==> #[trigger] path@[j] == path@[0],
        decreases path@.len() - i,
    {
        let p = path[i];
        if p.0 != first.0 || p.1 != first.1 {
            return false;
        }
        i += 1;
    }
    true
}

fn trace(path: &[(i32, i32)]) -> (r: Vec<Op>)
    requires
        path@.len() > 0,
    ensures
        r@ == trace_ops(path@),
{
    let mut ops: Vec<Op> = Vec::new();
    let (x0, y0) = path[0];
    ops.push(Op::MoveTo { x: x0, y: y0 });
    assert(ops@ =~= trace_ops(path@.subrange(0, 1)));
    let mut i: usize = 1;
    while i < path.len()
        invariant
            1 <= i <= path@.len(),
            ops@ == trace_ops(path@.subrange(0, i as int)),
        decreases path@.len() - i,
    {
        let (x, y) = path[i];
        ops.push(Op::LineTo { x, y });
        assert(ops@ =~= trace_ops(path@.subrange(0, i + 1)));
        i += 1;
    }
    assert(path@.subrange(0, path@.len() as int) =~= path@);
    ops
}

impl<C> CairoBackend<C> {
    /// A backend that draws a `w` by `h` picture on `context`. It starts
    /// unprepared, and is always made.
    pub fn new(context: C, size: (u32, u32)) -> (r: Result<Self, CairoError>)
        ensures
            r matches Ok(b) && b@ == (BackendState { width: size.0, height: size.1, prepared: false }),
            r matches Ok(b) && b.spec_context() == context,
    {
        let (w, h) = size;
        Ok(CairoBackend { context, width: w, height: h, init_flag: false })
    }

    /// The context that the backend draws on.
    pub closed spec fn spec_context(&self) -> C {
        self.context
    }

    /// The context that the backend draws on.
    pub fn context(&self) -> (r: &C)
        ensures
            *r == self.spec_context(),
    {
        &self.context
    }

    /// The size of the picture, width first.
    pub fn get_size(&self) -> (r: (u32, u32))
        ensures
            r == (self@.width, self@.height),
    {
        (self.width, self.height)
    }

    /// The one-time scaling that makes the picture fill the context's clip
    /// extents, while it has not been carried out; nothing after that.
    pub fn ensure_prepared(&self) -> (r: Vec<Op>)
        ensures
            r@ == prepare_ops(self@),
    {
        let mut ops: Vec<Op> = Vec::new();
        if !self.init_flag {
            ops.push(Op::ScaleToClip { width: self.width, height: self.height });
        }
        assert(ops@ =~= prepare_ops(self@));
        ops
    }

    /// Records the outcome of an attempt at the scaling planned by
    /// `ensure_prepared`: the backend is prepared from then on when it
    /// succeeded, and is left as it was when it failed.
    pub fn record_prepare(&mut self, scaled: bool)
        ensures
            final(self)@ == recorded_state(old(self)@, scaled),
            final(self).spec_context() == old(self).spec_context(),
    {
        if scaled {
            self.init_flag = true;
        }
    }

    /// A single pixel at `point`.
    pub fn draw_pixel(&self, point: (i32, i32), color: BackendColor) -> (r: Vec<Op>)
        ensures
            r@ == pixel_ops(point, color),
    {
        let mut ops: Vec<Op> = Vec::new();
        ops.push(Op::Rectangle { x: point.0, y: point.1, width: 1, height: 1 });
        ops.push(set_color(&color));
        ops.push(Op::Fill);
        assert(ops@ =~= pixel_ops(point, color));
        ops
    }

    /// A straight line from `from` to `to`.
    pub fn draw_line(&self, from: (i32, i32), to: (i32, i32), style: &ShapeStyle) -> (r: Vec<Op>)
        ensures
            r@ == line_ops(from, to, *style),
    {
        let mut ops: Vec<Op> = Vec::new();
        push_style(&mut ops, style);
        ops.push(Op::MoveTo { x: from.0, y: from.1 });
        ops.push(Op::LineTo { x: to.0, y: to.1 });
        ops.push(Op::Stroke);
        assert(ops@ =~= line_ops(from, to, *style));
        ops
    }

    /// The rectangle with corners `upper_left` and `bottom_right`, filled
    /// when `fill` holds and stroked otherwise.
    pub fn draw_rect(
        &self,
        upper_left: (i32, i32),
        bottom_right: (i32, i32),
        style: &ShapeStyle,
        fill: bool,
    ) -> (r: Vec<Op>)
        ensures
            r@ == rect_ops(upper_left, bottom_right, *style, fill),
    {
        let mut ops: Vec<Op> = Vec::new();
        push_style(&mut ops, style);
        let width = bottom_right.0 as i64 - upper_left.0 as i64;
        let height = bottom_right.1 as i64 - upper_left.1 as i64;
        ops.push(Op::Rectangle { x: upper_left.0, y: upper_left.1, width, height });
        ops.push(if fill { Op::Fill } else { Op::Stroke });
        assert(ops@ =~= rect_ops(upper_left, bottom_right, *style, fill));
        ops
    }

    /// The polyline through the points of `path`, stroked. A path of zero
    /// length draws nothing.
    pub fn draw_path(&self, path: &[(i32, i32)], style: &ShapeStyle) -> (r: Vec<Op>)
        ensures
            r@ == path_ops(path@, *style),
    {
        let mut ops: Vec<Op> = Vec::new();
        if is_zero_length(path) {
            assert(ops@ =~= path_ops(path@, *style));
            return ops;
        }
        push_style(&mut ops, style);
        let mut traced = trace(path);
        ops.append(&mut traced);
        ops.push(Op::Stroke);
        assert(ops@ =~= path_ops(path@, *style));
        ops
    }

    /// The polygon with the points of `path` as its corners, closed and
    /// filled. An empty polygon draws nothing.
    pub fn fill_polygon(&self, path: &[(i32, i32)], style: &ShapeStyle) -> (r: Vec<Op>)
        ensures
            r@ == polygon_ops(path@, *style),
    {
        let mut ops: Vec<Op> = Vec::new();
        if path.len() == 0 {
            assert(ops@ =~= polygon_ops(path@, *style));
            return ops;
        }
        push_style(&mut ops, style);
        let mut traced = trace(path);
        ops.append(&mut traced);
        ops.push(Op::ClosePath);
        ops.push(Op::Fill);
        assert(ops@ =~= polygon_ops(path@, *style));
        ops
    }

    /// The circle about `center` with the given radius, filled when `fill`
    /// holds and stroked otherwise.
    pub fn draw_circle(&self, center: (i32, i32), radius: u32, style: &ShapeStyle, fill: bool) -> (r:
        Vec<Op>)
        ensures
            r@ == circle_ops(center, radius, *style, fill),
    {
        let mut ops: Vec<Op> = Vec::new();
        push_style(&mut ops, style);
        ops.push(Op::NewSubPath);
        ops.push(Op::Arc { x: center.0, y: center.1, radius });
        ops.push(if fill { Op::Fill } else { Op::Stroke });
        assert(ops@ =~= circle_ops(center, radius, *style, fill));
        ops
    }

    /// Measuring a run of text in the font of `style`; the size of the text
    /// is the width and height of the extents measured.
    pub fn estimate_text_size(&self, style: &TextStyle) -> (r: Vec<Op>)
        ensures
            r@ == measure_ops(*style),
    {
        let mut ops = set_font(style);
        ops.push(Op::MeasureText);
        assert(ops@ =~= measure_ops(*style));
        ops
    }

    /// A run of text anchored at `pos`, turned and placed as `style` asks.
    pub fn draw_text(&self, style: &TextStyle, pos: (i32, i32)) -> (r: Vec<Op>)
        ensures
            r@ == text_ops(*style, pos),
    {
        let turns = style.transform.quarter_turns();
        let mut ops: Vec<Op> = Vec::new();
        let (mut x, mut y) = pos;
        if turns != 0 {
            ops.push(Op::Save);
            ops.push(Op::Translate { x, y });
            ops.push(Op::Rotate { quarter_turns: turns });
            x = 0;
            y = 0;
        }
        let mut font = set_font(style);
        ops.append(&mut font);
        ops.push(set_color(&style.color));
        ops.push(Op::MeasureText);
        ops.push(Op::MoveToText { x, y, offset: style.anchor.offset() });
        ops.push(Op::ShowText);
        if turns != 0 {
            ops.push(Op::Restore);
        }
        assert(ops@ =~= text_ops(*style, pos));
        ops
    }
}

} // verus!
