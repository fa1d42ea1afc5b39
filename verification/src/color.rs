//! Colours, as a front end takes them.

use vstd::prelude::*;

verus! {

/// A colour, by its red, green, blue and alpha parts.
pub struct Color {
    pub red: u8,
    pub green: u8,
    pub blue: u8,
    pub alpha: u8,
}

} // verus!
