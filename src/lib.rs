//! Test-image generation: bilinear colour gradients over four corner colours,
//! with and without brightness correction, and a centred circle mask.
//! All per-pixel arithmetic is exact integer arithmetic.
pub mod color;
pub mod sqrt;
pub mod interpolate;
pub mod circle;
pub mod pattern;
pub mod render;
pub mod palette;

pub use color::{Color, Channel, channel_of};
pub use sqrt::floor_sqrt;
pub use interpolate::{Ratio, interpolate, interpolate_brightness_corrected, blend_values};
pub use circle::circle;
pub use pattern::{Pattern, pixel_ratio, with_corners, with_corners_brightness_corrected};
pub use render::render;
pub use palette::{ImageSpec, SIZE, black, white, red, green, blue, yellow, standard_images};
