//! The colours that the interface draws with.
use vstd::prelude::*;

verus! {

/// A terminal colour.
#[derive(Clone, Copy, Debug, PartialEq, Eq, Structural)]
pub enum Color {
    Black,
    Yellow,
    Green,
    Blue,
    Magenta,
    Cyan,
    Gray,
    DarkGray,
}

} // verus!
