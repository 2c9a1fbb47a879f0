use vstd::prelude::*;

use crate::style::{FontSlant, FontWeight, HPos, TextAnchor, VPos};

verus! {

/// The largest value of an 8-bit color channel: a channel `c` stands for the
/// intensity `c / CHANNEL_MAX`.
pub const CHANNEL_MAX: u32 = 255;

/// An exact fraction `numer / denom`, with `denom > 0`.
#[derive(Clone, Copy, Debug, PartialEq, Eq, Structural)]
pub struct Ratio {
    pub numer: u32,
    pub denom: u32,
}

/// Offsets of a run of text from its anchor point, in halves of the measured
/// text extent: the text moves right by `dx_halves * width / 2` and down by
/// `dy_halves * height / 2`.
#[derive(Clone, Copy, Debug, PartialEq, Eq, Structural)]
pub struct TextOffset {
    pub dx_halves: i8,
    pub dy_halves: i8,
}

/// One operation on the graphics context. Coordinates are in user space; the
/// text and font family that text operations speak of are those of the
/// request being drawn.
#[allow(inconsistent_fields)]
#[derive(Clone, Copy, Debug, PartialEq, Eq, Structural)]
pub enum Op {
    /// Scale user space so that the `width` by `height` drawing fills the
    /// context's current clip extents.
    ScaleToClip { width: u32, height: u32 },
    /// Set the source to the color with these channel intensities and the
    /// opacity whose `f64` bit pattern is `alpha_bits`.
    SetSourceRgba { red: Ratio, green: Ratio, blue: Ratio, alpha_bits: u64 },
    /// Set the stroke width.
    SetLineWidth { width: u32 },
    /// Select a face of the font family with this slant and weight.
    SelectFontFace { slant: FontSlant, weight: FontWeight },
    /// Set the font size to the `f64` whose bit pattern is `size_bits`.
    SetFontSize { size_bits: u64 },
    /// Add a closed rectangle to the path.
    Rectangle { x: i32, y: i32, width: i64, height: i64 },
    /// Begin a new sub-path at this point.
    MoveTo { x: i32, y: i32 },
    /// Add a straight segment to this point.
    LineTo { x: i32, y: i32 },
    /// Close the current sub-path.
    ClosePath,
    /// Begin a new sub-path with no current point.
    NewSubPath,
    /// Add a full circle about this center, starting from angle 0.
    Arc { x: i32, y: i32, radius: u32 },
    /// Fill the path, then clear it.
    Fill,
    /// Stroke the path, then clear it.
    Stroke,
    /// Measure the extents of the text.
    MeasureText,
    /// Move to the point from which the text is shown: with the extents
    /// last measured, `x + dx - x_bearing` across and
    /// `y + dy - y_bearing - height` down, where `dx` and `dy` are the
    /// offset's half extents.
    MoveToText { x: i32, y: i32, offset: TextOffset },
    /// Show the text from the current point.
    ShowText,
    /// Push the graphics state.
    Save,
    /// Pop the graphics state.
    Restore,
    /// Move the origin of user space to this point.
    Translate { x: i32, y: i32 },
    /// Turn user space clockwise by this many quarter turns.
    Rotate { quarter_turns: u8 },
}

/// `r` is the exact fraction `numer / denom` (with `denom > 0`).
pub open spec fn ratio_is(r: Ratio, numer: int, denom: int) -> bool {
    &&& r.denom > 0
    &&& r.numer * denom == numer * r.denom
}

/// The intensity that a channel value stands for.
pub open spec fn channel_ratio(c: u8) -> Ratio {
    Ratio { numer: c as u32, denom: CHANNEL_MAX }
}

/// Horizontal offset, in half widths: left 0, right -1 width, center -1/2.
pub open spec fn h_offset(h: HPos) -> int {
    match h {
        HPos::Left => 0,
        HPos::Right => -2,
        HPos::Center => -1,
    }
}

/// Vertical offset, in half heights: bottom 0, center 1/2, top 1 height.
pub open spec fn v_offset(v: VPos) -> int {
    match v {
        VPos::Top => 2,
        VPos::Center => 1,
        VPos::Bottom => 0,
    }
}

pub open spec fn offset_of(anchor: TextAnchor) -> TextOffset {
    TextOffset { dx_halves: h_offset(anchor.h_pos) as i8, dy_halves: v_offset(anchor.v_pos) as i8 }
}

impl Ratio {
    /// The intensity of an 8-bit channel value: `c / 255`.
    pub fn of_channel(c: u8) -> (r: Ratio)
        ensures
            r == channel_ratio(c),
            ratio_is(r, c as int, CHANNEL_MAX as int),
    {
        Ratio { numer: c as u32, denom: CHANNEL_MAX }
    }
}

impl TextAnchor {
    /// The offset of text from this anchor point, in half extents.
    pub fn offset(&self) -> (r: TextOffset)
        ensures
            r == offset_of(*self),
            r.dx_halves == h_offset(self.h_pos),
            r.dy_halves == v_offset(self.v_pos),
    {
        let dx_halves: i8 = match self.h_pos {
            HPos::Left => 0,
            HPos::Right => -2,
            HPos::Center => -1,
        };
        let dy_halves: i8 = match self.v_pos {
            VPos::Top => 2,
            VPos::Center => 1,
            VPos::Bottom => 0,
        };
        TextOffset { dx_halves, dy_halves }
    }
}

} // verus!
