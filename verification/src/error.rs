//! The ways in which reading a font can fail.

use vstd::prelude::*;

verus! {

/// Why no font variant could be made of a font file. Either failure ends the
/// whole run: no family is reported when one file fails.
#[derive(Clone, Copy, Debug, PartialEq, Eq, Structural)]
pub enum FontError {
    /// The file could not be read as a font container.
    UnreadableFont,
    /// The face states a weight that is none of the nine known weights.
    UnrecognizedWeight,
}

} // verus!
