//! The verified core of a colour conversion and comparison library.
//!
//! Colours of any space convert into any other through RGB, and the rules by
//! which two colours are compared are decided here. Components are binary64
//! numbers, carried as their encodings.

pub mod approx;
pub mod compare;
pub mod convert;
pub mod rgb;
pub mod scalar;

pub use convert::{via_rgb, FromColor, FromRgb, ToRgb};
pub use rgb::Rgb;
pub use scalar::Scalar;
