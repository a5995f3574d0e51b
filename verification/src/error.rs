//! The ways in which input is turned away. None of them is fatal.

use vstd::prelude::*;

verus! {

/// Why a pointer event or an engine verdict changed nothing on the board.
#[derive(Clone, Copy, Debug, PartialEq, Eq, Structural, Hash)]
pub enum InteractionError {
    /// The point lies outside the playable grid.
    OutOfBounds,
    /// The rules engine turned a submitted move down.
    IllegalMove,
    /// The point lies in the promotion menu, but on none of its choices,
    /// while a promotion is pending.
    InvalidPromotionChoice,
}

} // verus!
