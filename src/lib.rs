//! Discrete core of a Mandelbrot renderer: palette selection and lookup,
//! step-count bands for choosing a view center, and assembly of the RGBA
//! frame from per-pixel step counts.
use vstd::prelude::*;

pub mod axis;
pub mod band;
pub mod choice;
pub mod colormap;
pub mod frame;
pub mod outcome;
pub mod palette;

pub use axis::{axis_fraction, AxisFraction};
pub use band::{StepBand, MAX_STEPS, MIN_STEPS};
pub use choice::random_colormap;
pub use colormap::{Colormap, COLORMAP_COUNT};
pub use frame::render_frame;
pub use outcome::Escape;
pub use palette::{palette_index, pixel_color, Color, PaletteSet, OPAQUE};

verus! {

} // verus!
