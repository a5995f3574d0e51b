//! The promotion menu: a secondary input region in which a player picks
//! the kind a pawn is promoted to.

use vstd::prelude::*;
use crate::geometry::{PixelPoint, Region};
use crate::position::{BoardSnapshot, BoardView, Color, PieceKind};

verus! {

/// The hit regions of the promotion menu: the menu as a whole, and one
/// region for each kind a pawn can become.
#[derive(Clone, Copy, Debug, PartialEq, Eq, Structural, Hash)]
pub struct PromotionPanel {
    pub menu: Region,
    pub queen: Region,
    pub bishop: Region,
    pub rook: Region,
    pub knight: Region,
}

impl PromotionPanel {
    /// The kind whose region holds the point. Where regions overlap, the
    /// queen's comes first, then the bishop's, the rook's and the knight's.
    pub open spec fn choice_at(self, p: PixelPoint) -> Option<PieceKind> {
        if self.queen.holds(p) {
            Some(PieceKind::Queen)
        } else if self.bishop.holds(p) {
            Some(PieceKind::Bishop)
        } else if self.rook.holds(p) {
            Some(PieceKind::Rook)
        } else if self.knight.holds(p) {
            Some(PieceKind::Knight)
        } else {
            None
        }
    }

    /// Maps a click to the kind it picks, or to nothing when it falls
    /// outside every choice.
    pub fn handle_click(&self, point: PixelPoint) -> (r: Option<PieceKind>)
        ensures
            r == self.choice_at(point),
            r is Some ==> r->Some_0.promotable(),
    {
        if self.queen.contains(point) {
            Some(PieceKind::Queen)
        } else if self.bishop.contains(point) {
            Some(PieceKind::Bishop)
        } else if self.rook.contains(point) {
            Some(PieceKind::Rook)
        } else if self.knight.contains(point) {
            Some(PieceKind::Knight)
        } else {
            None
        }
    }
}

/// The engine's promotion record as the menu shows it: the kind each side
/// has tentatively chosen.
#[derive(Clone, Copy, Debug, PartialEq, Eq, Structural, Hash)]
pub struct PendingPromotion {
    pub white: Option<PieceKind>,
    pub black: Option<PieceKind>,
}

/// What the engine's record gives to show: nothing when neither side has a
/// choice on record, else the record itself.
pub open spec fn mirrored_promotion(board: BoardView) -> Option<PendingPromotion> {
    if board.white_choice is None && board.black_choice is None {
        None
    } else {
        Some(PendingPromotion { white: board.white_choice, black: board.black_choice })
    }
}

/// Reads the engine's promotion record off a snapshot.
pub fn mirror_promotion(board: &BoardSnapshot) -> (r: Option<PendingPromotion>)
    ensures
        r == mirrored_promotion(board@),
{
    let white = board.pending_promotion(Color::White);
    let black = board.pending_promotion(Color::Black);
    match (white, black) {
        (None, None) => None,
        _ => Some(PendingPromotion { white, black }),
    }
}

} // verus!
