//! Color mapping: an escape depth is turned into an RGB triple by one of the
//! selectable gradient formulas.
//!
//! Each gradient is a pure function from the depth value to a color; the exact
//! byte values are pinned by the contracts, including the wrap-around that the
//! truncating byte casts of the formulas produce.

use vstd::prelude::*;

verus! {

/// One pixel of the output raster: an RGB triple, one byte per channel.
#[derive(Clone, Copy, Debug, PartialEq, Eq, Structural)]
pub struct PixelColor {
    pub r: u8,
    pub g: u8,
    pub b: u8,
}

/// The gradient formula a render uses, chosen once per render in the
/// configuration rather than by swapping code.
#[derive(Clone, Copy, Debug, PartialEq, Eq, Structural)]
pub enum GradientKind {
    /// A banded palette: the depth's high, middle and low bit groups pick the
    /// red, green and blue channels.
    Delphi,
    /// A smooth ramp: each channel is a small linear multiple of the depth,
    /// wrapped to a byte.
    Smooth,
}

/// The banded palette color of depth `i`: red from `i / 32`, green from the
/// next three bits down, blue from the two lowest bits, each scaled and
/// wrapped to a byte.
pub open spec fn delphi_spec(i: u32) -> PixelColor {
    PixelColor {
        r: (((i as u64 / 32) * 36) % 256) as u8,
        g: ((((i as u64 / 8) % 8) * 36) % 256) as u8,
        b: (((i as u64 % 4) * 85) % 256) as u8,
    }
}

/// The smooth ramp color of depth `i`: channels `5 * i`, `10 * (i + 30)` and
/// `3 * i`, each wrapped to a byte.
pub open spec fn smooth_spec(i: u32) -> PixelColor {
    PixelColor {
        r: ((i as u64 * 5) % 256) as u8,
        g: (((i as u64 + 30) * 10) % 256) as u8,
        b: ((i as u64 * 3) % 256) as u8,
    }
}

/// The color that the chosen gradient assigns to depth `i`.
pub open spec fn spec_pixel_color(kind: GradientKind, i: u32) -> PixelColor {
    match kind {
        GradientKind::Delphi => delphi_spec(i),
        GradientKind::Smooth => smooth_spec(i),
    }
}

/// Banded palette lookup.
pub fn delphi_color(i: u32) -> (c: PixelColor)
    ensures
        c == delphi_spec(i),
{
    let x: u64 = i as u64;
    PixelColor {
        r: (((x / 32) * 36) % 256) as u8,
        g: ((((x / 8) % 8) * 36) % 256) as u8,
        b: (((x % 4) * 85) % 256) as u8,
    }
}

/// Smooth ramp lookup.
pub fn smooth_color(i: u32) -> (c: PixelColor)
    ensures
        c == smooth_spec(i),
{
    let x: u64 = i as u64;
    PixelColor {
        r: ((x * 5) % 256) as u8,
        g: (((x + 30) * 10) % 256) as u8,
        b: ((x * 3) % 256) as u8,
    }
}

/// The color mapper: depth `i` under the gradient selected by `kind`.
pub fn pixel_color(kind: GradientKind, i: u32) -> (c: PixelColor)
    ensures
        c == spec_pixel_color(kind, i),
{
    match kind {
        GradientKind::Delphi => delphi_color(i),
        GradientKind::Smooth => smooth_color(i),
    }
}

} // verus!
