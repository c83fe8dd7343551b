//! The two colors of the panel.

use vstd::prelude::*;

verus! {

/// The color of a pixel.
#[derive(Clone, Copy, Debug, PartialEq, Eq, Structural)]
pub enum Color {
    Black,
    White,
}

} // verus!
