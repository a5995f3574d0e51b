//! What the interaction layer asks of the rules engine.
//!
//! The layer never calls the engine itself. Each decision that needs it
//! comes out as a request; the surrounding program performs it and reports
//! the outcome back.

use vstd::prelude::*;
use crate::position::{Color, PieceKind};
use crate::square::Square;

verus! {

/// One query or command for the rules engine.
#[derive(Clone, Copy, Debug, PartialEq, Eq, Structural, Hash)]
pub enum EngineRequest {
    /// Ask for the legal destinations of the piece on `from`.
    LegalMoves { from: Square },
    /// Submit the move of the piece on `from` to `to`.
    SubmitMove { from: Square, to: Square },
    /// Set the promotion choice of `color` to `kind`.
    SetPromotion { color: Color, kind: PieceKind },
    /// Discard the current game and start a fresh one.
    NewGame,
}

impl EngineRequest {
    /// Every square named is on the board, and a promotion names a kind a
    /// pawn can become.
    pub open spec fn wf(self) -> bool {
        match self {
            EngineRequest::LegalMoves { from } => from.wf(),
            EngineRequest::SubmitMove { from, to } => from.wf() && to.wf(),
            EngineRequest::SetPromotion { color, kind } => kind.promotable(),
            EngineRequest::NewGame => true,
        }
    }
}

/// What is outstanding between the layer and the engine.
#[derive(Clone, Copy, Debug, PartialEq, Eq, Structural, Hash)]
pub enum Awaiting {
    /// No request is outstanding.
    Nothing,
    /// The legal destinations from this square were asked for.
    LegalMoves(Square),
    /// A move was submitted and its verdict is due.
    Verdict,
}

} // verus!
