use vstd::prelude::*;

use crate::backend::{
    color_op, path_ops, polygon_ops, prepare_ops, recorded_state, style_ops, text_ops,
    upright_text_ops, BackendState,
};
use crate::ops::{offset_of, ratio_is, Op, CHANNEL_MAX};
use crate::style::{turns_of, BackendColor, HPos, ShapeStyle, TextAnchor, TextStyle, VPos};

verus! {

/// How many times the clip scaling is carried out over a run of rounds that
/// starts in state `s`. In each round the backend plans its preparation; when
/// that plans a scaling, `outcomes` says whether carrying it out succeeded,
/// and `record_prepare` records that outcome before the next round.
pub open spec fn scale_count(s: BackendState, outcomes: Seq<bool>) -> nat
    decreases outcomes.len(),
{
    if outcomes.len() == 0 {
        0
    } else {
        let scaled = prepare_ops(s).len() > 0 && outcomes[0];
        let next = if prepare_ops(s).len() > 0 {
            recorded_state(s, outcomes[0])
        } else {
            s
        };
        (if scaled {
            1nat
        } else {
            0nat
        }) + scale_count(next, outcomes.drop_first())
    }
}

/// Setting a color hands the context each 8-bit channel divided by 255,
/// exactly, and the opacity unchanged; a shape style sets its color first.
pub proof fn lemma_color_channels(c: BackendColor, s: ShapeStyle)
    ensures
        color_op(c) matches Op::SetSourceRgba { red, green, blue, alpha_bits } && ratio_is(
            red,
            c.rgb.0 as int,
            CHANNEL_MAX as int,
        ) && ratio_is(green, c.rgb.1 as int, CHANNEL_MAX as int) && ratio_is(
            blue,
            c.rgb.2 as int,
            CHANNEL_MAX as int,
        ) && alpha_bits == c.alpha_bits,
        CHANNEL_MAX == 255,
        style_ops(s)[0] == color_op(s.color),
{
}

/// Text moves from its anchor by `dx_halves * w / 2` across and
/// `dy_halves * h / 2` down, for a measured width `w` and height `h`: left
/// 0, right `-w`, center `-w / 2` across; bottom 0, center `h / 2`, top `h`
/// down. Drawing text moves by the offset of its style's anchor.
pub proof fn lemma_anchor_offsets(a: TextAnchor, w: int, h: int, t: TextStyle, pos: (i32, i32))
    ensures
        a.h_pos == HPos::Left ==> offset_of(a).dx_halves * w == 0,
        a.h_pos == HPos::Right ==> offset_of(a).dx_halves * w == 2 * -w,
        a.h_pos == HPos::Center ==> offset_of(a).dx_halves * w == -w,
        a.v_pos == VPos::Bottom ==> offset_of(a).dy_halves * h == 0,
        a.v_pos == VPos::Center ==> offset_of(a).dy_halves * h == h,
        a.v_pos == VPos::Top ==> offset_of(a).dy_halves * h == 2 * h,
        turns_of(t.transform) == 0 ==> text_ops(t, pos).contains(
            Op::MoveToText { x: pos.0, y: pos.1, offset: offset_of(t.anchor) },
        ),
        turns_of(t.transform) != 0 ==> text_ops(t, pos).contains(
            Op::MoveToText { x: 0, y: 0, offset: offset_of(t.anchor) },
        ),
{
    let dx = offset_of(a).dx_halves as int;
    let dy = offset_of(a).dy_halves as int;
    match a.h_pos {
        HPos::Left => {
            assert(dx * w == 0) by (nonlinear_arith) requires dx == 0;
        },
        HPos::Right => {
            assert(dx * w == 2 * -w) by (nonlinear_arith) requires dx == -2;
        },
        HPos::Center => {
            assert(dx * w == -w) by (nonlinear_arith) requires dx == -1;
        },
    }
    match a.v_pos {
        VPos::Bottom => {
            assert(dy * h == 0) by (nonlinear_arith) requires dy == 0;
        },
        VPos::Center => {
            assert(dy * h == h) by (nonlinear_arith) requires dy == 1;
        },
        VPos::Top => {
            assert(dy * h == 2 * h) by (nonlinear_arith) requires dy == 2;
        },
    }
    if turns_of(t.transform) == 0 {
        assert(text_ops(t, pos)[4] == Op::MoveToText {
            x: pos.0,
            y: pos.1,
            offset: offset_of(t.anchor),
        });
    } else {
        assert(text_ops(t, pos)[7] == Op::MoveToText { x: 0, y: 0, offset: offset_of(t.anchor) });
    }
}

/// Text turned by zero degrees is drawn exactly as upright text at the same
/// point: no graphics state is saved or restored, and user space is neither
/// moved nor turned.
pub proof fn lemma_zero_turn_is_upright(t: TextStyle, pos: (i32, i32))
    requires
        90 * turns_of(t.transform) == 0,
    ensures
        text_ops(t, pos) == upright_text_ops(t, pos.0, pos.1),
        forall|i: int|
            0 <= i < text_ops(t, pos).len() ==> !(text_ops(t, pos)[i] is Save) && !(text_ops(
                t,
                pos,
            )[i] is Restore) && !(text_ops(t, pos)[i] is Translate) && !(text_ops(
                t,
                pos,
            )[i] is Rotate),
{
}

/// However often drawing asks for preparation, and whichever attempts fail,
/// the clip scaling of a new backend is carried out at most once: once if
/// any attempt succeeds, and never otherwise. A prepared backend never
/// scales again.
pub proof fn lemma_prepare_once(s: BackendState, outcomes: Seq<bool>)
    ensures
        scale_count(s, outcomes) == (if !s.prepared && outcomes.contains(true) {
            1nat
        } else {
            0nat
        }),
    decreases outcomes.len(),
{
    if outcomes.len() > 0 {
        let rest = outcomes.drop_first();
        if !s.prepared && outcomes[0] {
            lemma_prepare_once(recorded_state(s, true), rest);
            assert(outcomes.contains(true)) by {
                assert(outcomes[0] == true);
            }
        } else {
            lemma_prepare_once(s, rest);
            if !s.prepared {
                assert(outcomes.contains(true) <==> rest.contains(true)) by {
                    if outcomes.contains(true) {
                        let k = choose|k: int| 0 <= k < outcomes.len() && outcomes[k] == true;
                        assert(rest[k - 1] == true);
                    }
                    if rest.contains(true) {
                        let k = choose|k: int| 0 <= k < rest.len() && rest[k] == true;
                        assert(outcomes[k + 1] == true);
                    }
                }
            }
        }
    }
}

/// A path of zero length (no points, or one point, possibly repeated) and an
/// empty polygon draw nothing: in particular no fill and no stroke reaches
/// the context.
pub proof fn lemma_empty_shapes_draw_nothing(path: Seq<(i32, i32)>, s: ShapeStyle)
    requires
        forall|i: int| 0 <= i < path.len() ==> #[trigger] path[i] == path[0],
    ensures
        path_ops(path, s) == Seq::<Op>::empty(),
        polygon_ops(Seq::<(i32, i32)>::empty(), s) == Seq::<Op>::empty(),
        !path_ops(path, s).contains(Op::Fill),
        !path_ops(path, s).contains(Op::Stroke),
        !polygon_ops(Seq::<(i32, i32)>::empty(), s).contains(Op::Fill),
        !polygon_ops(Seq::<(i32, i32)>::empty(), s).contains(Op::Stroke),
{
}

} // verus!
