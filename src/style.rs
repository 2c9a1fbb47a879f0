use vstd::prelude::*;

verus! {

/// A color as the plotting library hands it over: three 8-bit channels and an
/// opacity. The opacity is only ever passed on unchanged, so it is carried as
/// the IEEE-754 bit pattern of the `f64` it was given as.
#[derive(Clone, Copy, Debug, PartialEq, Eq, Structural)]
pub struct BackendColor {
    pub alpha_bits: u64,
    pub rgb: Rgb,
}

/// The red, green and blue channels of a color.
#[derive(Clone, Copy, Debug, PartialEq, Eq, Structural)]
pub struct Rgb(pub u8, pub u8, pub u8);

/// The style of a line or a shape: its color and its stroke width in pixels.
#[derive(Clone, Copy, Debug, PartialEq, Eq, Structural)]
pub struct ShapeStyle {
    pub color: BackendColor,
    pub stroke_width: u32,
}

/// The style in which a font is asked for.
#[derive(Clone, Copy, Debug, PartialEq, Eq, Structural)]
pub enum FontStyle {
    Normal,
    Oblique,
    Italic,
    Bold,
}

/// The slant of a font face, as the graphics context selects it.
#[derive(Clone, Copy, Debug, PartialEq, Eq, Structural)]
pub enum FontSlant {
    Normal,
    Italic,
    Oblique,
}

/// The weight of a font face, as the graphics context selects it.
#[derive(Clone, Copy, Debug, PartialEq, Eq, Structural)]
pub enum FontWeight {
    Normal,
    Bold,
}

/// Where a run of text stands horizontally relative to its anchor point.
#[derive(Clone, Copy, Debug, PartialEq, Eq, Structural)]
pub enum HPos {
    Left,
    Right,
    Center,
}

/// Where a run of text stands vertically relative to its anchor point.
#[derive(Clone, Copy, Debug, PartialEq, Eq, Structural)]
pub enum VPos {
    Top,
    Center,
    Bottom,
}

/// The anchor point of a run of text.
#[derive(Clone, Copy, Debug, PartialEq, Eq, Structural)]
pub struct TextAnchor {
    pub h_pos: HPos,
    pub v_pos: VPos,
}

/// A clockwise turn of a run of text about its anchor point.
#[derive(Clone, Copy, Debug, PartialEq, Eq, Structural)]
pub enum FontTransform {
    Upright,
    Rotate90,
    Rotate180,
    Rotate270,
}

/// The style of a run of text. The font family is a name that the owner of
/// the graphics context resolves; what is planned here is the face's slant and
/// weight, its size (the bit pattern of an `f64`, passed on unchanged), the
/// color, the anchor and the turn.
#[derive(Clone, Copy, Debug, PartialEq, Eq, Structural)]
pub struct TextStyle {
    pub style: FontStyle,
    pub size_bits: u64,
    pub color: BackendColor,
    pub anchor: TextAnchor,
    pub transform: FontTransform,
}

/// The slant and weight of the face selected for a font style: bold is an
/// upright bold face, oblique and italic are slanted faces of normal weight.
pub open spec fn face_of(style: FontStyle) -> (FontSlant, FontWeight) {
    match style {
        FontStyle::Normal => (FontSlant::Normal, FontWeight::Normal),
        FontStyle::Bold => (FontSlant::Normal, FontWeight::Bold),
        FontStyle::Oblique => (FontSlant::Oblique, FontWeight::Normal),
        FontStyle::Italic => (FontSlant::Italic, FontWeight::Normal),
    }
}

/// The number of clockwise quarter turns of a transform.
pub open spec fn turns_of(t: FontTransform) -> u8 {
    match t {
        FontTransform::Upright => 0,
        FontTransform::Rotate90 => 1,
        FontTransform::Rotate180 => 2,
        FontTransform::Rotate270 => 3,
    }
}

impl FontStyle {
    /// The slant and weight of the face that this style selects.
    pub fn face(self) -> (r: (FontSlant, FontWeight))
        ensures
            r == face_of(self),
    {
        match self {
            FontStyle::Normal => (FontSlant::Normal, FontWeight::Normal),
            FontStyle::Bold => (FontSlant::Normal, FontWeight::Bold),
            FontStyle::Oblique => (FontSlant::Oblique, FontWeight::Normal),
            FontStyle::Italic => (FontSlant::Italic, FontWeight::Normal),
        }
    }
}

impl FontTransform {
    /// The number of clockwise quarter turns, from 0 to 3.
    pub fn quarter_turns(self) -> (r: u8)
        ensures
            r == turns_of(self),
            r < 4,
    {
        match self {
            FontTransform::Upright => 0,
            FontTransform::Rotate90 => 1,
            FontTransform::Rotate180 => 2,
            FontTransform::Rotate270 => 3,
        }
    }

    /// The turn in degrees: 0, 90, 180 or 270.
    pub fn degrees(self) -> (r: u16)
        ensures
            r == 90 * turns_of(self),
    {
        let q = self.quarter_turns();
        90 * q as u16
    }
}

} // verus!
