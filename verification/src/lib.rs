//! Verified core of a Julia-set raster renderer.
//!
//! The library holds the deterministic pixel pipeline: resolving an orbit's
//! escape observation into an escape depth, mapping a depth to a color, and
//! filling a raster from the per-pixel observations, sequentially or in
//! parallel. The floating-point stages around it — mapping pixel coordinates
//! to the complex plane and stepping the Julia recurrence — run in the caller,
//! which hands the library one plain escape observation per pixel.

pub mod config;
pub mod escape;
pub mod gradient;
pub mod raster;

pub use config::RenderConfig;
pub use escape::EscapeEvent;
pub use gradient::GradientKind;
pub use gradient::PixelColor;
