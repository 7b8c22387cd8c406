//! Vocabulary shared by the widgets.

use vstd::prelude::*;

verus! {

/// How far a scrolling keypress moves.
#[derive(Copy, Clone, PartialEq, Eq, Structural, Debug)]
pub enum ScrollType {
    /// one row up
    Up,
    /// one row down
    Down,
    /// to the first row
    Home,
    /// to the last row
    End,
    /// one page up
    PageUp,
    /// one page down
    PageDown,
}

/// Whether a visible widget swallows every command of the widgets below it.
#[derive(Copy, Clone, PartialEq, Eq, Structural, Debug)]
pub enum CommandBlocking {
    /// commands of widgets below are hidden
    Blocking,
    /// commands pass on
    PassingOn,
}

} // verus!
