//! Integer core of a MOSSE correlation-filter tracker: window geometry,
//! the taper and target layouts, and patch extraction from a grayscale raster.

pub mod geometry;
pub mod patch;
pub mod taper;
pub mod target;
