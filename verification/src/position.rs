//! Pieces, and the picture of the rules engine's state that accompanies
//! every pointer event.

use vstd::prelude::*;
use crate::square::Square;

verus! {

/// The two sides.
#[derive(Clone, Copy, Debug, PartialEq, Eq, Structural, Hash)]
pub enum Color {
    White,
    Black,
}

/// The closed set of piece kinds.
#[derive(Clone, Copy, Debug, PartialEq, Eq, Structural, Hash)]
pub enum PieceKind {
    King,
    Queen,
    Rook,
    Bishop,
    Knight,
    Pawn,
}

impl PieceKind {
    /// The kinds a pawn may be promoted to.
    pub open spec fn promotable(self) -> bool {
        self == PieceKind::Queen || self == PieceKind::Rook || self == PieceKind::Bishop || self
            == PieceKind::Knight
    }

    /// Whether a pawn may be promoted to this kind.
    pub fn is_promotable(self) -> (r: bool)
        ensures
            r == self.promotable(),
    {
        match self {
            PieceKind::Queen | PieceKind::Rook | PieceKind::Bishop | PieceKind::Knight => true,
            PieceKind::King | PieceKind::Pawn => false,
        }
    }
}

/// A piece: its kind, tagged with the side that owns it.
#[derive(Clone, Copy, Debug, PartialEq, Eq, Structural, Hash)]
pub struct Piece {
    pub color: Color,
    pub kind: PieceKind,
}

/// Where a square's occupant stands in a row-major list of the 64 squares,
/// rank 1 first and file `a` first within a rank.
pub open spec fn square_index(s: Square) -> int {
    (s.rank - 1) * 8 + (s.file - 1)
}

/// Drops a promotion record that names no kind a pawn can become.
pub open spec fn promotion_choice(record: Option<PieceKind>) -> Option<PieceKind> {
    match record {
        Some(kind) => if kind.promotable() {
            Some(kind)
        } else {
            None
        },
        None => None,
    }
}

/// What a snapshot says, as mathematical values.
pub struct BoardView {
    /// The side to move.
    pub active: Color,
    /// The 64 squares in the order of [`square_index`].
    pub occupants: Seq<Option<Piece>>,
    /// White's tentative promotion choice, if any.
    pub white_choice: Option<PieceKind>,
    /// Black's tentative promotion choice, if any.
    pub black_choice: Option<PieceKind>,
}

impl BoardView {
    /// Sixty-four squares, and promotion choices a pawn can become.
    pub open spec fn wf(self) -> bool {
        &&& self.occupants.len() == 64
        &&& promotion_choice(self.white_choice) == self.white_choice
        &&& promotion_choice(self.black_choice) == self.black_choice
    }

    /// The occupant of a square.
    pub open spec fn piece_at(self, s: Square) -> Option<Piece> {
        self.occupants[square_index(s)]
    }

    /// Whether a piece of the side to move stands on a square.
    pub open spec fn own_piece_at(self, s: Square) -> bool {
        match self.piece_at(s) {
            Some(piece) => piece.color == self.active,
            None => false,
        }
    }

    /// The promotion choice recorded for a side.
    pub open spec fn pending_promotion(self, color: Color) -> Option<PieceKind> {
        match color {
            Color::White => self.white_choice,
            Color::Black => self.black_choice,
        }
    }

    /// The empty board with no promotion pending.
    pub open spec fn empty(active: Color) -> BoardView {
        BoardView {
            active,
            occupants: Seq::new(64, |i: int| None::<Piece>),
            white_choice: None,
            black_choice: None,
        }
    }

    /// This picture with the occupant of one square replaced.
    pub open spec fn with_occupant(self, s: Square, occupant: Option<Piece>) -> BoardView {
        BoardView { occupants: self.occupants.update(square_index(s), occupant), ..self }
    }

    /// This picture with the promotion record of one side replaced.
    pub open spec fn with_promotion(self, color: Color, record: Option<PieceKind>) -> BoardView {
        match color {
            Color::White => BoardView { white_choice: promotion_choice(record), ..self },
            Color::Black => BoardView { black_choice: promotion_choice(record), ..self },
        }
    }
}

/// A picture of the rules engine's state, taken when a pointer event
/// arrives: the side to move, the occupant of every square and the
/// promotion record of both sides. The interaction layer reads it and
/// keeps no copy of the piece placement.
#[derive(Debug, PartialEq, Eq)]
pub struct BoardSnapshot {
    active: Color,
    occupants: Vec<Option<Piece>>,
    white_choice: Option<PieceKind>,
    black_choice: Option<PieceKind>,
}

impl View for BoardSnapshot {
    type V = BoardView;

    closed spec fn view(&self) -> BoardView {
        BoardView {
            active: self.active,
            occupants: self.occupants@,
            white_choice: self.white_choice,
            black_choice: self.black_choice,
        }
    }
}

impl BoardSnapshot {
    /// What holds of every snapshot: its picture is well formed.
    #[verifier::type_invariant]
    pub open spec fn inv(self) -> bool {
        self@.wf()
    }

    /// The empty board, with `active` to move and no promotion pending.
    pub fn empty(active: Color) -> (board: BoardSnapshot)
        ensures
            board@ == BoardView::empty(active),
            board@.wf(),
    {
        let mut occupants: Vec<Option<Piece>> = Vec::new();
        let mut i: usize = 0;
        while i < 64
            invariant
                i <= 64,
                occupants@.len() == i,
                forall|k: int| 0 <= k < i ==> occupants@[k] == None::<Piece>,
            decreases 64 - i,
        {
            occupants.push(None);
            i += 1;
        }
        assert(occupants@ =~= Seq::new(64, |i: int| None::<Piece>));
        BoardSnapshot { active, occupants, white_choice: None, black_choice: None }
    }

    /// This snapshot with the occupant of one square replaced.
    pub fn with_occupant(self, square: Square, occupant: Option<Piece>) -> (board: BoardSnapshot)
        requires
            square.wf(),
        ensures
            board@ == self@.with_occupant(square, occupant),
            board@.wf(),
    {
        proof {
            use_type_invariant(&self);
        }
        let BoardSnapshot { active, mut occupants, white_choice, black_choice } = self;
        let index: usize = (square.rank as usize - 1) * 8 + (square.file as usize - 1);
        occupants.set(index, occupant);
        BoardSnapshot { active, occupants, white_choice, black_choice }
    }

    /// This snapshot with another side to move.
    pub fn with_active(self, active: Color) -> (board: BoardSnapshot)
        ensures
            board@ == (BoardView { active, ..self@ }),
            board@.wf(),
    {
        proof {
            use_type_invariant(&self);
        }
        let BoardSnapshot { active: _, occupants, white_choice, black_choice } = self;
        BoardSnapshot { active, occupants, white_choice, black_choice }
    }

    /// This snapshot with the promotion choice that the engine holds for a
    /// side. A record that names a king or a pawn is no choice and is
    /// stored as none.
    pub fn with_pending_promotion(self, color: Color, record: Option<PieceKind>) -> (board:
        BoardSnapshot)
        ensures
            board@ == self@.with_promotion(color, record),
            board@.wf(),
    {
        proof {
            use_type_invariant(&self);
        }
        let choice = match record {
            Some(kind) => if kind.is_promotable() {
                Some(kind)
            } else {
                None
            },
            None => None,
        };
        let BoardSnapshot { active, occupants, white_choice, black_choice } = self;
        match color {
            Color::White => BoardSnapshot { active, occupants, white_choice: choice, black_choice },
            Color::Black => BoardSnapshot { active, occupants, white_choice, black_choice: choice },
        }
    }

    /// The side to move.
    pub fn active_color(&self) -> (r: Color)
        ensures
            r == self@.active,
    {
        self.active
    }

    /// The occupant of a square.
    pub fn piece_at(&self, square: Square) -> (r: Option<Piece>)
        requires
            square.wf(),
        ensures
            r == self@.piece_at(square),
    {
        proof {
            use_type_invariant(self);
        }
        let index: usize = (square.rank as usize - 1) * 8 + (square.file as usize - 1);
        self.occupants[index]
    }

    /// Whether a piece of the side to move stands on a square.
    pub fn own_piece_at(&self, square: Square) -> (r: bool)
        requires
            square.wf(),
        ensures
            r == self@.own_piece_at(square),
    {
        match self.piece_at(square) {
            Some(piece) => piece.color == self.active,
            None => false,
        }
    }

    /// The promotion choice recorded for a side.
    pub fn pending_promotion(&self, color: Color) -> (r: Option<PieceKind>)
        ensures
            r == self@.pending_promotion(color),
            r == promotion_choice(r),
    {
        proof {
            use_type_invariant(self);
        }
        match color {
            Color::White => self.white_choice,
            Color::Black => self.black_choice,
        }
    }
}

} // verus!
