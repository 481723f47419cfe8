//! Conversion between colour spaces through one pivot space.
//!
//! A colour space says how to turn one of its colours into RGB and how to
//! make one from RGB; that is all it knows of the others. Every conversion
//! from one space to another is the composition of those two steps, so for
//! any two spaces there is exactly one path.

use crate::rgb::Rgb;
use vstd::prelude::*;

verus! {

/// A colour space that can express its colours in RGB.
///
/// The step is a function: the same colour always gives the same RGB colour.
/// An implementation states which as `rgb`, and `to_rgb` computes it. Nothing
/// more is asked of an implementation, so what is proved of conversions holds
/// of every space. An implementation that is compiled without being verified
/// gives `rgb` the body of `to_rgb`.
pub trait ToRgb {
    /// The RGB equivalent of the colour.
    spec fn rgb(&self) -> Rgb;

    /// Convert into an `Rgb` colour.
    fn to_rgb(&self) -> (rgb: Rgb)
        ensures
            rgb == self.rgb(),
    ;
}

/// A colour space that can make its colours from RGB.
///
/// The step is a function: the same RGB colour always gives the same colour.
/// An implementation states which as `of_rgb`, and `from_rgb` computes it.
/// An implementation that is compiled without being verified gives `of_rgb`
/// the body of `from_rgb`.
pub trait FromRgb: Sized {
    /// The colour of this space that stands for `rgb`.
    spec fn of_rgb(rgb: &Rgb) -> Self;

    /// Convert from an `Rgb` colour.
    fn from_rgb(rgb: &Rgb) -> (color: Self)
        ensures
            color == Self::of_rgb(rgb),
    ;
}

/// A colour space that can make its colours from those of the space `T`.
///
/// From a space into itself the conversion is the copy that is implemented
/// below for every space. Between two different spaces an implementation
/// calls [`via_rgb`], which is then what it states as `of_color`.
pub trait FromColor<T: ToRgb>: Sized {
    /// The colour of this space that stands for `color`.
    spec fn of_color(color: &T) -> Self;

    /// Convert from another colour space `T`.
    fn from_color(color: &T) -> (converted: Self)
        ensures
            converted == Self::of_color(color),
    ;
}

/// Within one space a conversion is a copy: the colour does not pass through
/// RGB, so nothing of it is lost.
impl<T: ToRgb + Copy> FromColor<T> for T {
    open spec fn of_color(color: &T) -> T {
        *color
    }

    fn from_color(color: &T) -> (converted: T) {
        *color
    }
}

/// The colour of the space `T` that `color` becomes by way of RGB.
pub open spec fn via_rgb_spec<S: ToRgb, T: FromRgb>(color: &S) -> T {
    T::of_rgb(&color.rgb())
}

/// Convert a colour of the space `S` into the space `T` by way of RGB.
///
/// This is the one path between two different spaces. It is not the way
/// from a space into itself, which is a copy.
#[verifier::when_used_as_spec(via_rgb_spec)]
pub fn via_rgb<S: ToRgb, T: FromRgb>(color: &S) -> (converted: T)
    ensures
        converted == via_rgb_spec::<S, T>(color),
{
    let rgb = color.to_rgb();
    T::from_rgb(&rgb)
}

/// A conversion from a space into itself returns the colour unchanged.
pub proof fn lemma_identity<T: ToRgb + Copy>(color: T)
    ensures
        <T as FromColor<T>>::of_color(&color) == color,
{
}

} // verus!
