//! Frame-by-frame geometry and bookkeeping for a line-art animation renderer:
//! solid topologies, a stroke font, particle draws, polyline and grid
//! layout, expression preprocessing, colour and canvas checks, frame
//! scheduling and naming, and the unpadding of GPU read-back rows.
pub mod color;
pub mod expression;
pub mod frames;
pub mod geometry;
pub mod glyph;
pub mod grid;
pub mod line;
pub mod particles;
pub mod readback;
pub mod scene;
pub mod validate;
