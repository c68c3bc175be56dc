//! The errors that the game's operations report.

use vstd::prelude::*;

verus! {

/// What an operation of the game can be refused for.
#[derive(Debug, Clone, Copy, PartialEq, Eq, Structural)]
pub enum ClickerError {
    /// The caller is not the player that the record belongs to.
    InvalidPlayer,
}

} // verus!
