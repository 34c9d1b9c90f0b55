//! Fitting an image's size into a display area, preserving aspect ratio.
//!
//! Sizes are exact fractions (`Extent`), so the fitted size of any image is
//! computed without rounding and its properties are proved.

pub mod viewport;
