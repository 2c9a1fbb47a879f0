//! A drawing backend for a plotting library, built on a Cairo-style 2-D
//! graphics context.
//!
//! Each drawing request (a pixel, a line, a rectangle, a path, a polygon, a
//! circle or a run of text) is planned here as the exact sequence of context
//! operations ([`ops::Op`]) that carries it out. Whoever owns the graphics
//! context performs those operations in order and stops at the first one that
//! fails, handing that failure to its caller unchanged.

pub mod backend;
pub mod laws;
pub mod ops;
pub mod style;

pub use backend::{is_zero_length, set_color, set_font, set_stroke_width, BackendState, CairoBackend, CairoError};
pub use ops::{Op, Ratio, TextOffset};
pub use style::{BackendColor, Rgb, FontSlant, FontStyle, FontTransform, FontWeight, HPos, ShapeStyle, TextAnchor, TextStyle, VPos};
