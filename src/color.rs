//! Display colour profiles in fixed-point units.

use vstd::prelude::*;

verus! {

/// Brightness is stored in ten-thousandths: `BRIGHTNESS_SCALE` is full brightness.
pub const BRIGHTNESS_SCALE: u32 = 10000;

/// Gamma is stored in hundredths: `GAMMA_SCALE` is a gamma of one.
pub const GAMMA_SCALE: u32 = 100;

/// Lowest colour temperature a profile may ask for, in Kelvin.
pub const MIN_TEMPERATURE: u16 = 1000;

/// Highest colour temperature a profile may ask for, in Kelvin.
pub const MAX_TEMPERATURE: u16 = 10000;

/// A colour profile applied to a display.
#[derive(Clone, Copy, Debug, PartialEq, Eq, Structural)]
pub struct Color {
    /// Colour temperature in Kelvin.
    pub temperature: u16,
    /// Gamma exponent, in hundredths.
    pub gamma: u32,
    /// Brightness, in ten-thousandths (`BRIGHTNESS_SCALE` is full).
    pub brightness: u32,
    /// Whether the ramp is inverted.
    pub inverted: bool,
}

pub open spec fn default_color() -> Color {
    Color { temperature: 6500, gamma: GAMMA_SCALE, brightness: BRIGHTNESS_SCALE, inverted: false }
}

impl Color {
    /// Whether the fields are inside the ranges a configuration may give.
    pub open spec fn spec_valid(&self) -> bool {
        &&& MIN_TEMPERATURE <= self.temperature <= MAX_TEMPERATURE
        &&& self.brightness <= BRIGHTNESS_SCALE
    }

    pub fn is_valid(&self) -> (r: bool)
        ensures
            r == self.spec_valid(),
    {
        MIN_TEMPERATURE <= self.temperature && self.temperature <= MAX_TEMPERATURE
            && self.brightness <= BRIGHTNESS_SCALE
    }
}

impl Default for Color {
    fn default() -> (r: Color)
        ensures
            r == default_color(),
    {
        Color { temperature: 6500, gamma: GAMMA_SCALE, brightness: BRIGHTNESS_SCALE, inverted: false }
    }
}

/// A colour section as configured: each value optional.
#[derive(Clone, Copy, Debug, PartialEq, Eq, Structural)]
pub struct ColorConfig {
    pub temperature: Option<u16>,
    pub gamma: Option<u32>,
    pub brightness: Option<u32>,
    pub inverted: Option<bool>,
}

pub open spec fn or_default<T>(value: Option<T>, default: T) -> T {
    match value {
        Some(v) => v,
        None => default,
    }
}

/// The colour a section describes: each absent value, or an absent
/// section, takes the default colour's value.
pub open spec fn spec_apply_default(config: Option<ColorConfig>) -> Color {
    let d = default_color();
    match config {
        None => d,
        Some(c) => Color {
            temperature: or_default(c.temperature, d.temperature),
            gamma: or_default(c.gamma, d.gamma),
            brightness: or_default(c.brightness, d.brightness),
            inverted: or_default(c.inverted, d.inverted),
        },
    }
}

/// Fills the values a colour section leaves out from the default colour.
pub fn apply_default_color(config: Option<ColorConfig>) -> (r: Color)
    ensures
        r == spec_apply_default(config),
{
    let d = Color::default();
    match config {
        None => d,
        Some(c) => Color {
            temperature: match c.temperature {
                Some(v) => v,
                None => d.temperature,
            },
            gamma: match c.gamma {
                Some(v) => v,
                None => d.gamma,
            },
            brightness: match c.brightness {
                Some(v) => v,
                None => d.brightness,
            },
            inverted: match c.inverted {
                Some(v) => v,
                None => d.inverted,
            },
        },
    }
}

} // verus!
