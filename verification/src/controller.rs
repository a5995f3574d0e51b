//! The board interaction controller: the single entry point for pointer
//! events, and the read-only state that a renderer paints from.

use vstd::prelude::*;
use crate::error::InteractionError;
use crate::geometry::{pixel_to_square, point_square, PixelPoint};
use crate::layout::Layout;
use crate::position::{BoardSnapshot, BoardView};
use crate::promotion::{mirror_promotion, mirrored_promotion, PendingPromotion};
use crate::render::{board_tiles, paint_index, painted_size, tile_for, Tile};
use crate::request::{Awaiting, EngineRequest};
use crate::square::Square;
use crate::selection::{
    click_step,
    lemma_steps_keep_wf,
    moves_step,
    reply_texts,
    verdict_step,
    MachineView,
    SelectionState,
    SelectionStateMachine,
};

verus! {

/// The button that a pointer event carries.
#[derive(Clone, Copy, Debug, PartialEq, Eq, Structural, Hash)]
pub enum PointerButton {
    /// The primary button, the only one that acts.
    Primary,
    Secondary,
    Middle,
    Other,
}

/// The controller's state as mathematical values.
pub struct ControllerView {
    /// The layout it was made with.
    pub layout: Layout,
    /// The selection machine.
    pub machine: MachineView,
    /// The promotion record it last mirrored from the engine.
    pub promotion: Option<PendingPromotion>,
}

impl ControllerView {
    /// A controller that has seen no event yet.
    pub open spec fn initial(layout: Layout) -> ControllerView {
        ControllerView { layout, machine: MachineView::idle(), promotion: None }
    }

    /// The selection machine is well formed.
    pub open spec fn wf(self) -> bool {
        self.machine.wf()
    }
}

/// What a click in the promotion menu comes to. While the engine holds no
/// choice for the side to move the menu is inactive and the click does
/// nothing. While it does, a click on a choice asks the engine to set it
/// for the side to move, and a click beside every choice is turned away.
pub open spec fn menu_step(layout: Layout, point: PixelPoint, board: BoardView) -> Result<
    Option<EngineRequest>,
    InteractionError,
> {
    if board.pending_promotion(board.active) is None {
        Ok(None)
    } else {
        match layout.promotion.choice_at(point) {
            Some(kind) => Ok(Some(EngineRequest::SetPromotion { color: board.active, kind })),
            None => Err(InteractionError::InvalidPromotionChoice),
        }
    }
}

/// The controller's answer to a pointer release: the next state, and the
/// request to perform or the reason the event was turned away.
///
/// Only the primary button acts. The reset region is tried first, then the
/// promotion menu, then the board; a point in none of them is out of
/// bounds. A reset drops the selection, whatever is outstanding and the
/// mirrored promotion record, and asks for a new game.
pub open spec fn pointer_step(
    c: ControllerView,
    point: PixelPoint,
    button: PointerButton,
    board: BoardView,
) -> (ControllerView, Result<Option<EngineRequest>, InteractionError>) {
    if button != PointerButton::Primary {
        (c, Ok(None))
    } else if c.layout.reset.region.holds(point) {
        (ControllerView::initial(c.layout), Ok(Some(EngineRequest::NewGame)))
    } else if c.layout.promotion.menu.holds(point) {
        (c, menu_step(c.layout, point, board))
    } else {
        match point_square(point, c.layout.board_origin, c.layout.cell_size, c.layout.board_size) {
            Ok(square) => {
                let (machine, request) = click_step(c.machine, square, board);
                (ControllerView { machine, ..c }, Ok(request))
            },
            Err(e) => (c, Err(e)),
        }
    }
}

/// The controller after the engine's legal moves arrive.
pub open spec fn moves_reported_step(c: ControllerView, texts: Seq<Seq<char>>) -> ControllerView {
    ControllerView { machine: moves_step(c.machine, texts), ..c }
}

/// The controller after the engine's verdict on a move arrives, and what
/// is reported of the verdict.
pub open spec fn resolved_step(c: ControllerView, accepted: bool) -> (
    ControllerView,
    Result<(), InteractionError>,
) {
    (
        ControllerView { machine: verdict_step(c.machine, accepted).0, ..c },
        verdict_step(c.machine, accepted).1,
    )
}

/// The controller after it mirrored the engine's promotion record.
pub open spec fn sync_step(c: ControllerView, board: BoardView) -> ControllerView {
    ControllerView { promotion: mirrored_promotion(board), ..c }
}

/// Every event keeps the controller well formed and leaves its layout as
/// it was, and every request it hands out is well formed.
pub proof fn lemma_events_keep_wf(
    c: ControllerView,
    point: PixelPoint,
    button: PointerButton,
    board: BoardView,
    texts: Seq<Seq<char>>,
    accepted: bool,
)
    requires
        c.wf(),
    ensures
        pointer_step(c, point, button, board).0.wf(),
        pointer_step(c, point, button, board).0.layout == c.layout,
        moves_reported_step(c, texts).wf(),
        resolved_step(c, accepted).0.wf(),
        sync_step(c, board).wf(),
        ({
            let r = pointer_step(c, point, button, board).1;
            r is Ok && r->Ok_0 is Some ==> r->Ok_0->Some_0.wf()
        }),
{
    let resolved = point_square(point, c.layout.board_origin, c.layout.cell_size, c.layout.board_size);
    if resolved is Ok {
        crate::geometry::lemma_square_only_from_its_cell(
            point,
            c.layout.board_origin,
            c.layout.cell_size,
            c.layout.board_size,
        );
        lemma_steps_keep_wf(c.machine, resolved->Ok_0, board, texts, accepted);
    } else {
        lemma_steps_keep_wf(c.machine, Square { file: 1, rank: 1 }, board, texts, accepted);
    }
}

/// A reset clears everything, from every state and whatever stands on the
/// board: nothing is selected, nothing is outstanding, no promotion is
/// mirrored, and a new game is asked for. Once the fresh game's record is
/// mirrored, the controller shows what the fresh game holds.
pub proof fn lemma_reset_clears_everything(
    c: ControllerView,
    point: PixelPoint,
    board: BoardView,
    fresh: BoardView,
)
    requires
        c.layout.reset.region.holds(point),
    ensures
        pointer_step(c, point, PointerButton::Primary, board) == (
            ControllerView::initial(c.layout),
            Ok::<Option<EngineRequest>, InteractionError>(Some(EngineRequest::NewGame)),
        ),
        sync_step(pointer_step(c, point, PointerButton::Primary, board).0, fresh) == (ControllerView {
            layout: c.layout,
            machine: MachineView::idle(),
            promotion: mirrored_promotion(fresh),
        }),
{
}

/// A click on the selected square deselects it and asks nothing of the
/// engine.
pub proof fn lemma_click_on_selected_square(c: ControllerView, point: PixelPoint, board: BoardView)
    requires
        c.machine.awaiting == Awaiting::Nothing,
        c.machine.selection is Selected,
        !c.layout.reset.region.holds(point),
        !c.layout.promotion.menu.holds(point),
        point_square(point, c.layout.board_origin, c.layout.cell_size, c.layout.board_size) == Ok::<
            Square,
            InteractionError,
        >(c.machine.selection->square),
    ensures
        pointer_step(c, point, PointerButton::Primary, board) == (
            ControllerView { machine: MachineView::idle(), ..c },
            Ok::<Option<EngineRequest>, InteractionError>(None),
        ),
{
}

/// With nothing selected, a click on a square that holds no piece of the
/// side to move changes nothing and asks nothing of the engine.
pub proof fn lemma_click_on_foreign_square(c: ControllerView, point: PixelPoint, board: BoardView)
    requires
        c.machine == MachineView::idle(),
        !c.layout.reset.region.holds(point),
        !c.layout.promotion.menu.holds(point),
        point_square(point, c.layout.board_origin, c.layout.cell_size, c.layout.board_size) is Ok,
        !board.own_piece_at(
            point_square(
                point,
                c.layout.board_origin,
                c.layout.cell_size,
                c.layout.board_size,
            )->Ok_0,
        ),
    ensures
        pointer_step(c, point, PointerButton::Primary, board) == (
            c,
            Ok::<Option<EngineRequest>, InteractionError>(None),
        ),
{
}

/// The promotion menu never touches the selection, and the selection
/// machine never sets a promotion: the two run side by side.
pub proof fn lemma_menu_leaves_selection(c: ControllerView, point: PixelPoint, board: BoardView)
    requires
        !c.layout.reset.region.holds(point),
    ensures
        c.layout.promotion.menu.holds(point) ==> pointer_step(
            c,
            point,
            PointerButton::Primary,
            board,
        ).0 == c,
        !c.layout.promotion.menu.holds(point) ==> !({
            let r = pointer_step(c, point, PointerButton::Primary, board).1;
            r is Ok && r->Ok_0 is Some && r->Ok_0->Some_0 is SetPromotion
        }),
{
}

/// Composes the coordinate mapping, the selection machine, the promotion
/// menu and the reset control.
#[derive(Debug)]
pub struct BoardInteractionController {
    layout: Layout,
    machine: SelectionStateMachine,
    promotion: Option<PendingPromotion>,
}

impl View for BoardInteractionController {
    type V = ControllerView;

    closed spec fn view(&self) -> ControllerView {
        ControllerView { layout: self.layout, machine: self.machine@, promotion: self.promotion }
    }
}

impl BoardInteractionController {
    /// A controller for a fresh game, laid out as `layout` says.
    pub fn new(layout: Layout) -> (controller: BoardInteractionController)
        ensures
            controller@ == ControllerView::initial(layout),
    {
        BoardInteractionController { layout, machine: SelectionStateMachine::new(), promotion: None }
    }

    /// Handles the release of a pointer button at `point`. `board` is the
    /// engine's state at that moment. Returns the request that the event
    /// calls for, nothing where it calls for none, or the reason it was
    /// turned away.
    pub fn on_pointer_release(
        &mut self,
        point: PixelPoint,
        button: PointerButton,
        board: &BoardSnapshot,
    ) -> (r: Result<Option<EngineRequest>, InteractionError>)
        ensures
            (final(self)@, r) == pointer_step(old(self)@, point, button, board@),
            final(self)@.wf(),
            r is Ok && r->Ok_0 is Some ==> r->Ok_0->Some_0.wf(),
    {
        proof {
            use_type_invariant(&self.machine);
        }
        match button {
            PointerButton::Primary => {},
            _ => {
                return Ok(None);
            },
        }
        if self.layout.reset.fires(point) {
            self.machine.reset();
            self.promotion = None;
            return Ok(Some(EngineRequest::NewGame));
        }
        if self.layout.promotion.menu.contains(point) {
            let active = board.active_color();
            if board.pending_promotion(active).is_none() {
                return Ok(None);
            }
            return match self.layout.promotion.handle_click(point) {
                Some(kind) => Ok(Some(EngineRequest::SetPromotion { color: active, kind })),
                None => Err(InteractionError::InvalidPromotionChoice),
            };
        }
        match pixel_to_square(
            point,
            self.layout.board_origin,
            self.layout.cell_size,
            self.layout.board_size,
        ) {
            Ok(square) => Ok(self.machine.click(square, board)),
            Err(e) => Err(e),
        }
    }

    /// Takes the engine's answer to a query for legal moves.
    pub fn legal_moves_reported(&mut self, moves: Option<Vec<String>>)
        ensures
            final(self)@ == moves_reported_step(old(self)@, reply_texts(moves)),
            final(self)@.wf(),
    {
        self.machine.legal_moves_reported(moves);
    }

    /// Takes the engine's verdict on the move that was submitted.
    pub fn move_resolved(&mut self, accepted: bool) -> (r: Result<(), InteractionError>)
        ensures
            (final(self)@, r) == resolved_step(old(self)@, accepted),
            final(self)@.wf(),
    {
        self.machine.move_resolved(accepted)
    }

    /// Mirrors the engine's promotion record, for the menu's highlight.
    pub fn sync_promotion(&mut self, board: &BoardSnapshot)
        ensures
            final(self)@ == sync_step(old(self)@, board@),
            final(self)@.wf(),
    {
        proof {
            use_type_invariant(&self.machine);
        }
        self.promotion = mirror_promotion(board);
    }

    /// The current selection.
    pub fn selection(&self) -> (r: &SelectionState)
        ensures
            r@ == self@.machine.selection,
            r@.wf(),
    {
        self.machine.state()
    }

    /// What is outstanding with the engine.
    pub fn awaiting(&self) -> (r: Awaiting)
        ensures
            r == self@.machine.awaiting,
            self@.wf(),
    {
        self.machine.awaiting()
    }

    /// The promotion record last mirrored from the engine.
    pub fn pending_promotion(&self) -> (r: Option<PendingPromotion>)
        ensures
            r == self@.promotion,
    {
        self.promotion
    }

    /// The tiles of the board in paint order, marked by the current
    /// selection and filled from `board`.
    pub fn tiles(&self, board: &BoardSnapshot) -> (tiles: Vec<Tile>)
        ensures
            tiles@.len() == painted_size(self@.layout) * painted_size(self@.layout),
            forall|row: int, col: int|
                0 <= row < painted_size(self@.layout) && 0 <= col < painted_size(self@.layout)
                    ==> tiles@[paint_index(painted_size(self@.layout), row, col)] == tile_for(
                    row,
                    col,
                    self@.machine.selection,
                    self@.layout,
                    board@,
                ),
    {
        board_tiles(self.machine.state(), &self.layout, board)
    }

    /// The layout the controller was made with.
    pub fn layout(&self) -> (r: Layout)
        ensures
            r == self@.layout,
    {
        self.layout
    }
}

} // verus!
