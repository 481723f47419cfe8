//! The RGB colour space, through which every conversion passes.

use crate::convert::{via_rgb, FromRgb, ToRgb};
use crate::scalar::Scalar;
use vstd::prelude::*;

verus! {

/// An RGB colour (red, green, blue).
#[derive(Clone, Copy, Debug)]
pub struct Rgb {
    /// The red component (0 to 255).
    pub r: Scalar,
    /// The green component (0 to 255).
    pub g: Scalar,
    /// The blue component (0 to 255).
    pub b: Scalar,
}

/// The red channel of a packed colour `0xRRGGBB`.
pub open spec fn hex_red(hex: u32) -> int {
    (hex as int / 0x1_0000) % 0x100
}

/// The green channel of a packed colour `0xRRGGBB`.
pub open spec fn hex_green(hex: u32) -> int {
    (hex as int / 0x100) % 0x100
}

/// The blue channel of a packed colour `0xRRGGBB`.
pub open spec fn hex_blue(hex: u32) -> int {
    hex as int % 0x100
}

impl Rgb {
    /// Create a new RGB colour.
    pub fn new(r: Scalar, g: Scalar, b: Scalar) -> (rgb: Rgb)
        ensures
            rgb == (Rgb { r, g, b }),
    {
        Rgb { r, g, b }
    }

    /// Create a new RGB colour from the packed value `0xRRGGBB`. The eight
    /// bits above the red channel are ignored.
    pub fn from_hex(hex: u32) -> (rgb: Rgb)
        ensures
            rgb.r.is_whole(hex_red(hex)),
            rgb.g.is_whole(hex_green(hex)),
            rgb.b.is_whole(hex_blue(hex)),
    {
        assert((hex >> 16) & 0xff == (hex / 0x1_0000) % 0x100) by (bit_vector);
        assert((hex >> 8) & 0xff == (hex / 0x100) % 0x100) by (bit_vector);
        assert(hex & 0xff == hex % 0x100) by (bit_vector);
        let red: u8 = ((hex >> 16) & 0xff) as u8;
        let green: u8 = ((hex >> 8) & 0xff) as u8;
        let blue: u8 = (hex & 0xff) as u8;
        Rgb { r: Scalar::from_u8(red), g: Scalar::from_u8(green), b: Scalar::from_u8(blue) }
    }
}

impl Default for Rgb {
    /// Black.
    fn default() -> (rgb: Rgb)
        ensures
            rgb.r.bits == 0,
            rgb.g.bits == 0,
            rgb.b.bits == 0,
    {
        Rgb { r: Scalar::default(), g: Scalar::default(), b: Scalar::default() }
    }
}

impl FromRgb for Rgb {
    open spec fn of_rgb(rgb: &Rgb) -> Rgb {
        *rgb
    }

    fn from_rgb(rgb: &Rgb) -> (color: Rgb) {
        *rgb
    }
}

impl ToRgb for Rgb {
    open spec fn rgb(&self) -> Rgb {
        *self
    }

    fn to_rgb(&self) -> (rgb: Rgb) {
        *self
    }
}

/// Converting into RGB is taking the RGB equivalent, and converting out of
/// RGB is making the colour from it: the pivot adds no step of its own. So a
/// colour converted into RGB keeps its RGB equivalent, RGB gives back what it
/// was made from, and a conversion in two steps by way of RGB is the
/// conversion in one.
pub proof fn lemma_pivot_is_transparent<S: ToRgb, T: FromRgb>(color: S, rgb: Rgb)
    ensures
        via_rgb::<S, Rgb>(&color) == color.rgb(),
        via_rgb::<Rgb, T>(&rgb) == T::of_rgb(&rgb),
        via_rgb::<S, Rgb>(&color).rgb() == color.rgb(),
        Rgb::of_rgb(&rgb.rgb()) == rgb,
        via_rgb::<Rgb, T>(&via_rgb::<S, Rgb>(&color)) == via_rgb::<S, T>(&color),
{
}

} // verus!
