//! The selection state machine: which square is selected, and where its
//! piece may go.

use vstd::prelude::*;
use crate::error::InteractionError;
use crate::position::{BoardSnapshot, BoardView};
use crate::request::{Awaiting, EngineRequest};
use crate::square::{lemma_text_names_one_square, string_to_square, text_square, Square};

verus! {

/// What is selected on the board.
#[derive(Clone, Debug, PartialEq, Eq)]
pub enum SelectionState {
    /// No square is selected.
    Idle,
    /// A square is selected; `destinations` are the squares its piece could
    /// move to when it was selected, in the order the engine gave them.
    Selected { square: Square, destinations: Vec<Square> },
}

/// A selection as mathematical values.
pub enum SelectionView {
    Idle,
    Selected { square: Square, destinations: Seq<Square> },
}

impl SelectionView {
    /// A selection always has somewhere to go, and names squares of the
    /// board only.
    pub open spec fn wf(self) -> bool {
        match self {
            SelectionView::Idle => true,
            SelectionView::Selected { square, destinations } => {
                &&& square.wf()
                &&& destinations.len() > 0
                &&& forall|i: int| 0 <= i < destinations.len() ==> (#[trigger] destinations[i]).wf()
            },
        }
    }

    /// Whether `square` is one of the destinations of the selection.
    pub open spec fn leads_to(self, square: Square) -> bool {
        match self {
            SelectionView::Idle => false,
            SelectionView::Selected { square: _, destinations } => destinations.contains(square),
        }
    }
}

impl SelectionState {
    /// Whether `square` is one of the destinations of the selection.
    pub fn leads_to(&self, square: Square) -> (r: bool)
        ensures
            r == self@.leads_to(square),
    {
        match self {
            SelectionState::Idle => false,
            SelectionState::Selected { square: _, destinations } => holds_square(
                destinations,
                square,
            ),
        }
    }
}

impl View for SelectionState {
    type V = SelectionView;

    open spec fn view(&self) -> SelectionView {
        match self {
            SelectionState::Idle => SelectionView::Idle,
            SelectionState::Selected { square, destinations } => SelectionView::Selected {
                square: *square,
                destinations: destinations@,
            },
        }
    }
}

/// The state of the machine as mathematical values.
pub struct MachineView {
    pub selection: SelectionView,
    pub awaiting: Awaiting,
}

impl MachineView {
    /// Nothing selected, nothing outstanding.
    pub open spec fn idle() -> MachineView {
        MachineView { selection: SelectionView::Idle, awaiting: Awaiting::Nothing }
    }

    /// The selection is well formed; destinations are asked for only
    /// while nothing is selected, and a verdict is due only on a move from
    /// a selection.
    pub open spec fn wf(self) -> bool {
        &&& self.selection.wf()
        &&& match self.awaiting {
            Awaiting::Nothing => true,
            Awaiting::LegalMoves(from) => from.wf() && self.selection is Idle,
            Awaiting::Verdict => self.selection is Selected,
        }
    }
}

/// The squares named by the engine's texts, in order. A text that names no
/// square is passed over.
pub open spec fn named_squares(texts: Seq<Seq<char>>) -> Seq<Square>
    decreases texts.len(),
{
    if texts.len() == 0 {
        Seq::empty()
    } else {
        let earlier = named_squares(texts.drop_last());
        match text_square(texts.last()) {
            Some(square) => earlier.push(square),
            None => earlier,
        }
    }
}

/// The engine's answer to a query for legal moves, as sequences of
/// characters: no answer stands for no moves.
pub open spec fn reply_texts(reply: Option<Vec<String>>) -> Seq<Seq<char>> {
    match reply {
        Some(moves) => Seq::new(moves@.len(), |i: int| moves@[i]@),
        None => Seq::empty(),
    }
}

/// The machine's answer to a click on a square of the board.
///
/// While a reply is outstanding the click is ignored. With nothing
/// selected, a click on a piece of the side to move asks for its legal
/// destinations, and any other click does nothing. With a square selected,
/// a click on it deselects; a click on one of its destinations submits the
/// move; a click on another piece of the side to move starts a fresh
/// selection there; and a click anywhere else drops the selection.
pub open spec fn click_step(m: MachineView, clicked: Square, board: BoardView) -> (
    MachineView,
    Option<EngineRequest>,
) {
    if m.awaiting != Awaiting::Nothing {
        (m, None)
    } else {
        match m.selection {
            SelectionView::Idle => fresh_selection(clicked, board),
            SelectionView::Selected { square, destinations } => {
                if clicked == square {
                    (MachineView::idle(), None)
                } else if destinations.contains(clicked) {
                    (
                        MachineView { selection: m.selection, awaiting: Awaiting::Verdict },
                        Some(EngineRequest::SubmitMove { from: square, to: clicked }),
                    )
                } else {
                    fresh_selection(clicked, board)
                }
            },
        }
    }
}

/// A click with nothing selected, or on a square that is neither the
/// selection nor one of its destinations: a piece of the side to move is
/// asked about, anything else leaves nothing selected.
pub open spec fn fresh_selection(clicked: Square, board: BoardView) -> (
    MachineView,
    Option<EngineRequest>,
) {
    if board.own_piece_at(clicked) {
        (
            MachineView { selection: SelectionView::Idle, awaiting: Awaiting::LegalMoves(clicked) },
            Some(EngineRequest::LegalMoves { from: clicked }),
        )
    } else {
        (MachineView::idle(), None)
    }
}

/// The machine after the engine's legal moves arrive. If they were asked
/// for, the square asked about becomes selected, unless it has no
/// destination; if they were not, nothing changes.
pub open spec fn moves_step(m: MachineView, texts: Seq<Seq<char>>) -> MachineView {
    match m.awaiting {
        Awaiting::LegalMoves(from) => {
            let destinations = named_squares(texts);
            if destinations.len() == 0 {
                MachineView::idle()
            } else {
                MachineView {
                    selection: SelectionView::Selected { square: from, destinations },
                    awaiting: Awaiting::Nothing,
                }
            }
        },
        _ => m,
    }
}

/// The machine after the engine's verdict on a move arrives. If one was
/// due, the selection is dropped whether or not the move was accepted, and
/// a rejection is reported; if none was due, nothing changes.
pub open spec fn verdict_step(m: MachineView, accepted: bool) -> (
    MachineView,
    Result<(), InteractionError>,
) {
    match m.awaiting {
        Awaiting::Verdict => (
            MachineView::idle(),
            if accepted {
                Ok(())
            } else {
                Err(InteractionError::IllegalMove)
            },
        ),
        _ => (m, Ok(())),
    }
}

/// Every square the engine's texts name is on the board.
pub proof fn lemma_named_squares_wf(texts: Seq<Seq<char>>)
    ensures
        forall|i: int| 0 <= i < named_squares(texts).len() ==> (#[trigger] named_squares(texts)[i]).wf(),
    decreases texts.len(),
{
    if texts.len() > 0 {
        let earlier = named_squares(texts.drop_last());
        lemma_named_squares_wf(texts.drop_last());
        if text_square(texts.last()) is Some {
            lemma_text_names_one_square(texts.last());
        }
        assert forall|i: int| 0 <= i < named_squares(texts).len() implies (#[trigger] named_squares(
            texts,
        )[i]).wf() by {
            if i < earlier.len() {
                assert(named_squares(texts)[i] == earlier[i]);
            }
        }
    }
}

/// A square is among the named ones exactly when one of the texts is its
/// textual form.
pub proof fn lemma_named_squares_contains(texts: Seq<Seq<char>>, square: Square)
    ensures
        named_squares(texts).contains(square) <==> exists|i: int|
            0 <= i < texts.len() && text_square(#[trigger] texts[i]) == Some(square),
    decreases texts.len(),
{
    if texts.len() == 0 {
        assert(!named_squares(texts).contains(square));
    } else {
        let front = texts.drop_last();
        let earlier = named_squares(front);
        lemma_named_squares_contains(front, square);
        let all = named_squares(texts);
        if all.contains(square) {
            let k = choose|k: int| 0 <= k < all.len() && all[k] == square;
            if k < earlier.len() {
                assert(earlier[k] == square);
                assert(earlier.contains(square));
                let i = choose|i: int|
                    0 <= i < front.len() && text_square(#[trigger] front[i]) == Some(square);
                assert(texts[i] == front[i]);
            } else {
                assert(text_square(texts[texts.len() - 1]) == Some(square));
            }
        }
        if exists|i: int| 0 <= i < texts.len() && text_square(#[trigger] texts[i]) == Some(square) {
            let i = choose|i: int|
                0 <= i < texts.len() && text_square(#[trigger] texts[i]) == Some(square);
            if i < front.len() {
                assert(front[i] == texts[i]);
                assert(earlier.contains(square));
                let k = choose|k: int| 0 <= k < earlier.len() && earlier[k] == square;
                assert(all[k] == square);
            } else {
                assert(texts.last() == texts[i]);
                assert(all[all.len() - 1] == square);
            }
        }
    }
}

/// Every step keeps the machine well formed: a selection never has an
/// empty list of destinations, whatever the engine answers.
pub proof fn lemma_steps_keep_wf(
    m: MachineView,
    clicked: Square,
    board: BoardView,
    texts: Seq<Seq<char>>,
    accepted: bool,
)
    requires
        m.wf(),
        clicked.wf(),
    ensures
        click_step(m, clicked, board).0.wf(),
        moves_step(m, texts).wf(),
        verdict_step(m, accepted).0.wf(),
        click_step(m, clicked, board).1 is Some ==> click_step(m, clicked, board).1->Some_0.wf(),
{
    lemma_named_squares_wf(texts);
    match m.selection {
        SelectionView::Idle => {},
        SelectionView::Selected { square, destinations } => {
            if destinations.contains(clicked) {
                let k = choose|k: int| 0 <= k < destinations.len() && destinations[k] == clicked;
                assert(destinations[k].wf());
            }
        },
    }
}

/// A click on the selected square deselects it and asks nothing of the
/// engine, whatever stands on the board.
pub proof fn lemma_click_on_selection_deselects(m: MachineView, board: BoardView)
    requires
        m.awaiting == Awaiting::Nothing,
        m.selection is Selected,
    ensures
        click_step(m, m.selection->square, board) == (MachineView::idle(), None::<EngineRequest>),
{
}

/// Two clicks on one square undo each other. The first, on a piece of the
/// side to move that has somewhere to go, selects it once the engine has
/// answered; the second deselects it. Neither submits a move.
pub proof fn lemma_second_click_undoes_first(
    square: Square,
    first: BoardView,
    texts: Seq<Seq<char>>,
    second: BoardView,
)
    requires
        first.own_piece_at(square),
        named_squares(texts).len() > 0,
    ensures
        ({
            let (asked, query) = click_step(MachineView::idle(), square, first);
            let selected = moves_step(asked, texts);
            let (after, request) = click_step(selected, square, second);
            &&& query == Some(EngineRequest::LegalMoves { from: square })
            &&& selected == (MachineView {
                selection: SelectionView::Selected { square, destinations: named_squares(texts) },
                awaiting: Awaiting::Nothing,
            })
            &&& request == None::<EngineRequest>
            &&& after == MachineView::idle()
        }),
{
}

/// A click on a destination of the selection submits the move from the
/// selected square to it, and the verdict is then due.
pub proof fn lemma_click_on_destination_submits(m: MachineView, clicked: Square, board: BoardView)
    requires
        m.awaiting == Awaiting::Nothing,
        m.selection is Selected,
        m.selection.leads_to(clicked),
        clicked != m.selection->square,
    ensures
        click_step(m, clicked, board) == (
            MachineView { selection: m.selection, awaiting: Awaiting::Verdict },
            Some(EngineRequest::SubmitMove { from: m.selection->square, to: clicked }),
        ),
{
}

/// Once a move was submitted nothing stays selected, whether the engine
/// accepts or rejects it: a rejection leaves no stale selection behind,
/// whatever was selected.
pub proof fn lemma_verdict_clears_selection(m: MachineView, accepted: bool)
    requires
        m.awaiting == Awaiting::Verdict,
    ensures
        verdict_step(m, accepted).0 == MachineView::idle(),
        verdict_step(m, accepted).1 == (if accepted {
            Ok::<(), InteractionError>(())
        } else {
            Err::<(), InteractionError>(InteractionError::IllegalMove)
        }),
{
}

/// A rejected move leaves nothing selected, for every selection the move
/// was made from and every destination of it.
pub proof fn lemma_rejected_move_leaves_idle(m: MachineView, clicked: Square, board: BoardView)
    requires
        m.awaiting == Awaiting::Nothing,
        m.selection is Selected,
        m.selection.leads_to(clicked),
        clicked != m.selection->square,
    ensures
        verdict_step(click_step(m, clicked, board).0, false) == (
            MachineView::idle(),
            Err::<(), InteractionError>(InteractionError::IllegalMove),
        ),
{
}

/// A piece with nowhere to go is never selected: when the engine names no
/// destination for the square that was asked about, nothing is selected.
pub proof fn lemma_no_destination_no_selection(m: MachineView, texts: Seq<Seq<char>>)
    requires
        m.awaiting is LegalMoves,
        named_squares(texts).len() == 0,
    ensures
        moves_step(m, texts) == MachineView::idle(),
{
}

/// The engine is asked about a square only when a piece of the side to
/// move stands on it, and a square becomes selected only by the answer to
/// that question.
pub proof fn lemma_selection_is_of_own_piece(
    m: MachineView,
    clicked: Square,
    board: BoardView,
    texts: Seq<Seq<char>>,
)
    ensures
        click_step(m, clicked, board).1 is Some && click_step(m, clicked, board).1->Some_0
            is LegalMoves ==> board.own_piece_at(clicked) && click_step(m, clicked, board).0.awaiting
            == Awaiting::LegalMoves(clicked),
        moves_step(m, texts).selection != m.selection ==> m.awaiting is LegalMoves && (moves_step(
            m,
            texts,
        ).selection is Selected ==> moves_step(m, texts).selection->square == m.awaiting->LegalMoves_0),
{
}

/// The machine: the selection, and what is outstanding with the engine.
#[derive(Debug)]
pub struct SelectionStateMachine {
    selection: SelectionState,
    awaiting: Awaiting,
}

impl View for SelectionStateMachine {
    type V = MachineView;

    closed spec fn view(&self) -> MachineView {
        MachineView { selection: self.selection@, awaiting: self.awaiting }
    }
}

fn holds_square(squares: &Vec<Square>, square: Square) -> (r: bool)
    ensures
        r == squares@.contains(square),
{
    let mut i: usize = 0;
    while i < squares.len()
        invariant
            i <= squares@.len(),
            forall|k: int| 0 <= k < i ==> squares@[k] != square,
        decreases squares@.len() - i,
    {
        if squares[i] == square {
            return true;
        }
        i += 1;
    }
    false
}

fn read_squares(moves: &Vec<String>) -> (squares: Vec<Square>)
    ensures
        squares@ == named_squares(Seq::new(moves@.len(), |i: int| moves@[i]@)),
{
    let ghost texts = Seq::new(moves@.len(), |i: int| moves@[i]@);
    let mut squares: Vec<Square> = Vec::new();
    let mut i: usize = 0;
    while i < moves.len()
        invariant
            i <= moves@.len(),
            texts == Seq::new(moves@.len(), |i: int| moves@[i]@),
            squares@ == named_squares(texts.take(i as int)),
        decreases moves@.len() - i,
    {
        proof {
            assert(texts.take(i + 1).drop_last() =~= texts.take(i as int));
            assert(texts.take(i + 1).last() == moves@[i as int]@);
        }
        match string_to_square(moves[i].as_str()) {
            Some(square) => {
                squares.push(square);
            },
            None => {},
        }
        i += 1;
    }
    proof {
        assert(texts.take(i as int) =~= texts);
    }
    squares
}

impl SelectionStateMachine {
    /// What holds of every machine: its state is well formed.
    #[verifier::type_invariant]
    pub open spec fn inv(self) -> bool {
        self@.wf()
    }

    /// A machine with nothing selected and nothing outstanding.
    pub fn new() -> (machine: SelectionStateMachine)
        ensures
            machine@ == MachineView::idle(),
    {
        SelectionStateMachine { selection: SelectionState::Idle, awaiting: Awaiting::Nothing }
    }

    /// The current selection.
    pub fn state(&self) -> (r: &SelectionState)
        ensures
            r@ == self@.selection,
            r@.wf(),
    {
        proof {
            use_type_invariant(self);
        }
        &self.selection
    }

    /// What is outstanding with the engine.
    pub fn awaiting(&self) -> (r: Awaiting)
        ensures
            r == self@.awaiting,
            self@.wf(),
    {
        proof {
            use_type_invariant(self);
        }
        self.awaiting
    }

    /// Whether `square` is a destination of the current selection.
    pub fn is_destination(&self, square: Square) -> (r: bool)
        ensures
            r == self@.selection.leads_to(square),
    {
        self.selection.leads_to(square)
    }

    /// Advances the machine on a click that resolved to `clicked`, reading
    /// the side to move and the occupant of the square from `board`.
    /// Returns the request to perform, if the click calls for one.
    pub fn click(&mut self, clicked: Square, board: &BoardSnapshot) -> (request: Option<
        EngineRequest,
    >)
        requires
            clicked.wf(),
        ensures
            (final(self)@, request) == click_step(old(self)@, clicked, board@),
            final(self)@.wf(),
            request is Some ==> request->Some_0.wf(),
    {
        proof {
            use_type_invariant(&*self);
        }
        match self.awaiting {
            Awaiting::Nothing => {},
            _ => {
                return None;
            },
        }
        let submit: Option<Square> = match &self.selection {
            SelectionState::Idle => None,
            SelectionState::Selected { square, destinations } => {
                if clicked == *square {
                    *self = SelectionStateMachine {
                        selection: SelectionState::Idle,
                        awaiting: Awaiting::Nothing,
                    };
                    return None;
                }
                if holds_square(destinations, clicked) {
                    Some(*square)
                } else {
                    None
                }
            },
        };
        match submit {
            Some(from) => {
                self.awaiting = Awaiting::Verdict;
                Some(EngineRequest::SubmitMove { from, to: clicked })
            },
            None => {
                if board.own_piece_at(clicked) {
                    *self = SelectionStateMachine {
                        selection: SelectionState::Idle,
                        awaiting: Awaiting::LegalMoves(clicked),
                    };
                    Some(EngineRequest::LegalMoves { from: clicked })
                } else {
                    *self = SelectionStateMachine {
                        selection: SelectionState::Idle,
                        awaiting: Awaiting::Nothing,
                    };
                    None
                }
            },
        }
    }

    /// Takes the engine's answer to a query for legal moves: the texts of
    /// the destinations, or nothing where there is no piece or no move.
    pub fn legal_moves_reported(&mut self, moves: Option<Vec<String>>)
        ensures
            final(self)@ == moves_step(old(self)@, reply_texts(moves)),
            final(self)@.wf(),
    {
        proof {
            use_type_invariant(&*self);
        }
        match self.awaiting {
            Awaiting::LegalMoves(from) => {
                let destinations = match &moves {
                    Some(texts) => read_squares(texts),
                    None => Vec::new(),
                };
                proof {
                    lemma_named_squares_wf(reply_texts(moves));
                }
                if destinations.len() == 0 {
                    *self = SelectionStateMachine {
                        selection: SelectionState::Idle,
                        awaiting: Awaiting::Nothing,
                    };
                } else {
                    *self = SelectionStateMachine {
                        selection: SelectionState::Selected { square: from, destinations },
                        awaiting: Awaiting::Nothing,
                    };
                }
            },
            _ => {},
        }
    }

    /// Takes the engine's verdict on the move that was submitted. The
    /// selection is dropped either way; a rejection comes back as
    /// `IllegalMove`.
    pub fn move_resolved(&mut self, accepted: bool) -> (r: Result<(), InteractionError>)
        ensures
            (final(self)@, r) == verdict_step(old(self)@, accepted),
            final(self)@.wf(),
    {
        proof {
            use_type_invariant(&*self);
        }
        match self.awaiting {
            Awaiting::Verdict => {
                *self = SelectionStateMachine {
                    selection: SelectionState::Idle,
                    awaiting: Awaiting::Nothing,
                };
                if accepted {
                    Ok(())
                } else {
                    Err(InteractionError::IllegalMove)
                }
            },
            _ => Ok(()),
        }
    }

    /// Drops the selection and forgets whatever was outstanding.
    pub fn reset(&mut self)
        ensures
            final(self)@ == MachineView::idle(),
    {
        *self = SelectionStateMachine { selection: SelectionState::Idle, awaiting: Awaiting::Nothing };
    }
}

} // verus!
