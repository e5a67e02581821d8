//! The ways to move through the history of a process.

use vstd::prelude::*;

verus! {

/// A step through the history.
#[derive(Clone, Copy, PartialEq, Eq, Structural, Debug)]
pub enum ScrollDirection {
    /// Half a screen towards older lines.
    PageUp,
    /// Half a screen towards newer lines.
    PageDown,
    /// One line towards older lines.
    LineUp,
    /// One line towards newer lines.
    LineDown,
}

} // verus!
