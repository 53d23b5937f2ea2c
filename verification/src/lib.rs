//! Renders a grey-scale raster as a block of moon-phase emoji.
//!
//! Every cell of the raster becomes one glyph: its brightness picks how full
//! the moon is, and its horizontal gradient picks the waxing or the waning
//! side of the cycle.
//!
//! * [`params`]: the checked request, a grid size and a gamma.
//! * [`tone`]: tone curves and the five brightness levels.
//! * [`glyph`]: the direction test, the table of moons and the glyph of one
//!   cell.
//! * [`raster`]: the luma and gradient planes of a resized image.
//! * [`text`]: the rendering of a whole raster, and what its text looks like.
//!
//! The library does no floating-point arithmetic and no input or output.  A
//! caller decodes and resamples the image, and for a gamma other than 1.0
//! evaluates the power law; the library takes bytes and gives back the text.
//! Everything in it is verified except two calls into other crates, which
//! are believed as documented where they stand: the parallel map over the
//! cells (rayon) and the joining of the lines (itertools).

pub mod error;
pub mod glyph;
pub mod params;
pub mod raster;
pub mod text;
pub mod tone;

pub use error::Error;
pub use glyph::{is_rightward, moon, phase, select_moon};
pub use params::{Dimensions, Gamma, DEFAULT_HEIGHT, DEFAULT_WIDTH, UNIT_GAMMA_BITS};
pub use raster::{Raster, RasterView};
pub use text::render;
pub use tone::{Brightness, ToneCurve, STEPS};
