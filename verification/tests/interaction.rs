use board_interaction::controller::{BoardInteractionController, PointerButton};
use board_interaction::error::InteractionError;
use board_interaction::geometry::{CellSize, PixelPoint, Region};
use board_interaction::layout::{Layout, ResetControl};
use board_interaction::position::{BoardSnapshot, Color, Piece, PieceKind};
use board_interaction::promotion::{mirror_promotion, PendingPromotion, PromotionPanel};
use board_interaction::request::{Awaiting, EngineRequest};
use board_interaction::selection::{SelectionState, SelectionStateMachine};
use board_interaction::square::Square;

fn sq(text: &str) -> Square {
    board_interaction::square::string_to_square(text).unwrap()
}

fn at(text: &str) -> PixelPoint {
    let s = sq(text);
    PixelPoint { x: (s.file as i32 - 1) * 90 + 45, y: (8 - s.rank as i32) * 90 + 45 }
}

fn texts(moves: &[&str]) -> Option<Vec<String>> {
    Some(moves.iter().map(|m| m.to_string()).collect())
}

fn opening() -> BoardSnapshot {
    let back = [
        PieceKind::Rook,
        PieceKind::Knight,
        PieceKind::Bishop,
        PieceKind::Queen,
        PieceKind::King,
        PieceKind::Bishop,
        PieceKind::Knight,
        PieceKind::Rook,
    ];
    let mut board = BoardSnapshot::empty(Color::White);
    for file in 1..=8u8 {
        let kind = back[file as usize - 1];
        board = board
            .with_occupant(Square { file, rank: 1 }, Some(Piece { color: Color::White, kind }))
            .with_occupant(
                Square { file, rank: 2 },
                Some(Piece { color: Color::White, kind: PieceKind::Pawn }),
            )
            .with_occupant(
                Square { file, rank: 7 },
                Some(Piece { color: Color::Black, kind: PieceKind::Pawn }),
            )
            .with_occupant(Square { file, rank: 8 }, Some(Piece { color: Color::Black, kind }));
    }
    board
}

fn controller() -> BoardInteractionController {
    BoardInteractionController::new(Layout::standard())
}

fn click(
    c: &mut BoardInteractionController,
    p: PixelPoint,
    board: &BoardSnapshot,
) -> Result<Option<EngineRequest>, InteractionError> {
    c.on_pointer_release(p, PointerButton::Primary, board)
}

fn select(c: &mut BoardInteractionController, from: &str, moves: &[&str], board: &BoardSnapshot) {
    assert_eq!(click(c, at(from), board), Ok(Some(EngineRequest::LegalMoves { from: sq(from) })));
    c.legal_moves_reported(texts(moves));
}

fn selected(from: &str, moves: &[&str]) -> SelectionState {
    SelectionState::Selected {
        square: sq(from),
        destinations: moves.iter().map(|m| sq(m)).collect(),
    }
}

#[test]
fn a_new_controller_is_idle() {
    let c = controller();
    assert_eq!(*c.selection(), SelectionState::Idle);
    assert_eq!(c.awaiting(), Awaiting::Nothing);
    assert_eq!(c.pending_promotion(), None);
    assert_eq!(c.layout(), Layout::standard());
}

#[test]
fn opening_move_e2_e4() {
    let board = opening();
    let mut c = controller();
    assert_eq!(
        click(&mut c, at("e2"), &board),
        Ok(Some(EngineRequest::LegalMoves { from: sq("e2") }))
    );
    assert_eq!(c.awaiting(), Awaiting::LegalMoves(sq("e2")));
    assert_eq!(*c.selection(), SelectionState::Idle);
    c.legal_moves_reported(texts(&["e3", "e4"]));
    assert_eq!(*c.selection(), selected("e2", &["e3", "e4"]));
    assert_eq!(c.awaiting(), Awaiting::Nothing);
    assert_eq!(
        click(&mut c, at("e4"), &board),
        Ok(Some(EngineRequest::SubmitMove { from: sq("e2"), to: sq("e4") }))
    );
    assert_eq!(c.awaiting(), Awaiting::Verdict);
    assert_eq!(c.move_resolved(true), Ok(()));
    assert_eq!(*c.selection(), SelectionState::Idle);
    assert_eq!(c.awaiting(), Awaiting::Nothing);
}

#[test]
fn click_on_an_empty_square_does_nothing() {
    let board = opening();
    let mut c = controller();
    assert_eq!(click(&mut c, at("e5"), &board), Ok(None));
    assert_eq!(*c.selection(), SelectionState::Idle);
    assert_eq!(c.awaiting(), Awaiting::Nothing);
}

#[test]
fn click_on_an_opposing_piece_does_nothing() {
    let board = opening();
    let mut c = controller();
    assert_eq!(click(&mut c, at("e7"), &board), Ok(None));
    assert_eq!(*c.selection(), SelectionState::Idle);
    let black_to_move = opening().with_active(Color::Black);
    assert_eq!(click(&mut c, at("e2"), &black_to_move), Ok(None));
    assert_eq!(
        click(&mut c, at("e7"), &black_to_move),
        Ok(Some(EngineRequest::LegalMoves { from: sq("e7") }))
    );
}

#[test]
fn second_click_on_the_selected_square_deselects() {
    let board = opening();
    let mut c = controller();
    select(&mut c, "e2", &["e3", "e4"], &board);
    assert_eq!(*c.selection(), selected("e2", &["e3", "e4"]));
    assert_eq!(click(&mut c, at("e2"), &board), Ok(None));
    assert_eq!(*c.selection(), SelectionState::Idle);
    assert_eq!(c.awaiting(), Awaiting::Nothing);
}

#[test]
fn a_rejected_move_leaves_nothing_selected() {
    let board = opening();
    let mut c = controller();
    select(&mut c, "g1", &["f3", "h3"], &board);
    assert_eq!(
        click(&mut c, at("h3"), &board),
        Ok(Some(EngineRequest::SubmitMove { from: sq("g1"), to: sq("h3") }))
    );
    assert_eq!(c.move_resolved(false), Err(InteractionError::IllegalMove));
    assert_eq!(*c.selection(), SelectionState::Idle);
    assert_eq!(c.awaiting(), Awaiting::Nothing);
    assert!(!c.selection().leads_to(sq("f3")));
}

#[test]
fn a_piece_with_no_destination_is_not_selected() {
    let board = opening();
    let mut c = controller();
    select(&mut c, "a1", &[], &board);
    assert_eq!(*c.selection(), SelectionState::Idle);
    assert_eq!(c.awaiting(), Awaiting::Nothing);
    assert_eq!(
        click(&mut c, at("e1"), &board),
        Ok(Some(EngineRequest::LegalMoves { from: sq("e1") }))
    );
    c.legal_moves_reported(None);
    assert_eq!(*c.selection(), SelectionState::Idle);
    assert_eq!(c.awaiting(), Awaiting::Nothing);
}

#[test]
fn texts_that_name_no_square_are_passed_over() {
    let board = opening();
    let mut c = controller();
    select(&mut c, "b1", &["a3", "", "z9", "c3", "c33"], &board);
    assert_eq!(*c.selection(), selected("b1", &["a3", "c3"]));
    let mut d = controller();
    select(&mut d, "b1", &["??", "b"], &board);
    assert_eq!(*d.selection(), SelectionState::Idle);
}

#[test]
fn destinations_keep_the_order_of_the_engine() {
    let board = opening();
    let mut c = controller();
    select(&mut c, "d2", &["d4", "d3", "d4"], &board);
    assert_eq!(*c.selection(), selected("d2", &["d4", "d3", "d4"]));
}

#[test]
fn click_elsewhere_cancels_the_selection() {
    let board = opening();
    let mut c = controller();
    select(&mut c, "e2", &["e3", "e4"], &board);
    assert_eq!(click(&mut c, at("h5"), &board), Ok(None));
    assert_eq!(*c.selection(), SelectionState::Idle);
    select(&mut c, "e2", &["e3", "e4"], &board);
    assert_eq!(click(&mut c, at("e7"), &board), Ok(None));
    assert_eq!(*c.selection(), SelectionState::Idle);
}

#[test]
fn click_on_another_own_piece_switches_the_selection() {
    let board = opening();
    let mut c = controller();
    select(&mut c, "e2", &["e3", "e4"], &board);
    assert_eq!(
        click(&mut c, at("d2"), &board),
        Ok(Some(EngineRequest::LegalMoves { from: sq("d2") }))
    );
    assert_eq!(*c.selection(), SelectionState::Idle);
    c.legal_moves_reported(texts(&["d3", "d4"]));
    assert_eq!(*c.selection(), selected("d2", &["d3", "d4"]));
    assert_eq!(
        click(&mut c, at("a1"), &board),
        Ok(Some(EngineRequest::LegalMoves { from: sq("a1") }))
    );
    c.legal_moves_reported(texts(&[]));
    assert_eq!(*c.selection(), SelectionState::Idle);
}

#[test]
fn a_destination_wins_over_an_own_piece() {
    let board = opening();
    let mut c = controller();
    select(&mut c, "e1", &["g1"], &board);
    assert_eq!(
        click(&mut c, at("g1"), &board),
        Ok(Some(EngineRequest::SubmitMove { from: sq("e1"), to: sq("g1") }))
    );
}

#[test]
fn clicks_are_ignored_while_a_reply_is_outstanding() {
    let board = opening();
    let mut c = controller();
    assert_eq!(
        click(&mut c, at("e2"), &board),
        Ok(Some(EngineRequest::LegalMoves { from: sq("e2") }))
    );
    assert_eq!(click(&mut c, at("d2"), &board), Ok(None));
    assert_eq!(c.awaiting(), Awaiting::LegalMoves(sq("e2")));
    c.legal_moves_reported(texts(&["e3"]));
    assert_eq!(*c.selection(), selected("e2", &["e3"]));
    assert_eq!(
        click(&mut c, at("e3"), &board),
        Ok(Some(EngineRequest::SubmitMove { from: sq("e2"), to: sq("e3") }))
    );
    assert_eq!(click(&mut c, at("e2"), &board), Ok(None));
    assert_eq!(*c.selection(), selected("e2", &["e3"]));
    assert_eq!(c.awaiting(), Awaiting::Verdict);
}

#[test]
fn replies_that_were_not_asked_for_change_nothing() {
    let board = opening();
    let mut c = controller();
    c.legal_moves_reported(texts(&["e3"]));
    assert_eq!(*c.selection(), SelectionState::Idle);
    assert_eq!(c.move_resolved(false), Ok(()));
    assert_eq!(c.move_resolved(true), Ok(()));
    select(&mut c, "e2", &["e3"], &board);
    assert_eq!(c.move_resolved(false), Ok(()));
    assert_eq!(*c.selection(), selected("e2", &["e3"]));
    c.legal_moves_reported(texts(&["a3"]));
    assert_eq!(*c.selection(), selected("e2", &["e3"]));
    assert_eq!(
        click(&mut c, at("e3"), &board),
        Ok(Some(EngineRequest::SubmitMove { from: sq("e2"), to: sq("e3") }))
    );
    c.legal_moves_reported(None);
    assert_eq!(*c.selection(), selected("e2", &["e3"]));
    assert_eq!(c.awaiting(), Awaiting::Verdict);
}

#[test]
fn only_the_primary_button_acts() {
    let board = opening();
    let mut c = controller();
    for button in [PointerButton::Secondary, PointerButton::Middle, PointerButton::Other] {
        assert_eq!(c.on_pointer_release(at("e2"), button, &board), Ok(None));
        assert_eq!(c.on_pointer_release(PixelPoint { x: 50, y: 740 }, button, &board), Ok(None));
        assert_eq!(c.on_pointer_release(PixelPoint { x: 2000, y: 2000 }, button, &board), Ok(None));
        assert_eq!(c.awaiting(), Awaiting::Nothing);
    }
    select(&mut c, "e2", &["e3"], &board);
    assert_eq!(c.on_pointer_release(at("e2"), PointerButton::Secondary, &board), Ok(None));
    assert_eq!(*c.selection(), selected("e2", &["e3"]));
}

#[test]
fn a_click_off_the_board_is_out_of_bounds() {
    let board = opening();
    let mut c = controller();
    select(&mut c, "e2", &["e3"], &board);
    for p in [
        PixelPoint { x: 720, y: 100 },
        PixelPoint { x: 100, y: 720 },
        PixelPoint { x: -1, y: 100 },
        PixelPoint { x: 100, y: -1 },
        PixelPoint { x: 500, y: 740 },
        PixelPoint { x: 11, y: 740 },
    ] {
        assert_eq!(click(&mut c, p, &board), Err(InteractionError::OutOfBounds));
        assert_eq!(*c.selection(), selected("e2", &["e3"]));
    }
}

#[test]
fn the_bottom_row_reaches_to_the_edge_of_the_board() {
    let board = opening();
    let mut c = controller();
    assert_eq!(
        click(&mut c, PixelPoint { x: 405, y: 719 }, &board),
        Ok(Some(EngineRequest::LegalMoves { from: sq("e1") }))
    );
}

#[test]
fn reset_clears_everything() {
    let board = opening().with_pending_promotion(Color::White, Some(PieceKind::Rook));
    let inside = PixelPoint { x: 50, y: 740 };
    let mut c = controller();
    c.sync_promotion(&board);
    assert_eq!(
        c.pending_promotion(),
        Some(PendingPromotion { white: Some(PieceKind::Rook), black: None })
    );
    select(&mut c, "e2", &["e3", "e4"], &board);
    assert_eq!(click(&mut c, inside, &board), Ok(Some(EngineRequest::NewGame)));
    assert_eq!(*c.selection(), SelectionState::Idle);
    assert_eq!(c.awaiting(), Awaiting::Nothing);
    assert_eq!(c.pending_promotion(), None);
    assert_eq!(c.layout(), Layout::standard());
    let fresh = opening().with_pending_promotion(Color::Black, Some(PieceKind::Queen));
    c.sync_promotion(&fresh);
    assert_eq!(
        c.pending_promotion(),
        Some(PendingPromotion { white: None, black: Some(PieceKind::Queen) })
    );
    assert_eq!(*c.selection(), SelectionState::Idle);
}

#[test]
fn reset_fires_while_a_reply_is_outstanding() {
    let board = opening();
    let inside = PixelPoint { x: 12, y: 757 };
    let mut c = controller();
    assert_eq!(
        click(&mut c, at("e2"), &board),
        Ok(Some(EngineRequest::LegalMoves { from: sq("e2") }))
    );
    assert_eq!(click(&mut c, inside, &board), Ok(Some(EngineRequest::NewGame)));
    assert_eq!(c.awaiting(), Awaiting::Nothing);
    c.legal_moves_reported(texts(&["e3"]));
    assert_eq!(*c.selection(), SelectionState::Idle);
    select(&mut c, "e2", &["e3"], &board);
    assert_eq!(
        click(&mut c, at("e3"), &board),
        Ok(Some(EngineRequest::SubmitMove { from: sq("e2"), to: sq("e3") }))
    );
    assert_eq!(click(&mut c, inside, &board), Ok(Some(EngineRequest::NewGame)));
    assert_eq!(c.move_resolved(false), Ok(()));
    assert_eq!(*c.selection(), SelectionState::Idle);
}

#[test]
fn promotion_click_on_rook_sets_rook_once() {
    let board = opening().with_pending_promotion(Color::White, Some(PieceKind::Queen));
    let mut c = controller();
    assert_eq!(
        click(&mut c, PixelPoint { x: 270, y: 900 }, &board),
        Ok(Some(EngineRequest::SetPromotion { color: Color::White, kind: PieceKind::Rook }))
    );
    assert_eq!(c.awaiting(), Awaiting::Nothing);
    assert_eq!(
        click(&mut c, PixelPoint { x: 500, y: 900 }, &board),
        Err(InteractionError::InvalidPromotionChoice)
    );
    assert_eq!(
        click(&mut c, PixelPoint { x: 500, y: 800 }, &board),
        Err(InteractionError::OutOfBounds)
    );
}

#[test]
fn promotion_click_picks_each_kind_for_the_side_to_move() {
    let board = opening()
        .with_active(Color::Black)
        .with_pending_promotion(Color::Black, Some(PieceKind::Knight));
    let mut c = controller();
    for (x, kind) in [
        (30, PieceKind::Queen),
        (96, PieceKind::Queen),
        (133, PieceKind::Bishop),
        (209, PieceKind::Bishop),
        (248, PieceKind::Rook),
        (299, PieceKind::Rook),
        (332, PieceKind::Knight),
        (409, PieceKind::Knight),
    ] {
        assert_eq!(
            click(&mut c, PixelPoint { x, y: 896 }, &board),
            Ok(Some(EngineRequest::SetPromotion { color: Color::Black, kind }))
        );
    }
    for x in [1, 29, 97, 132, 210, 247, 300, 331, 410, 719] {
        assert_eq!(
            click(&mut c, PixelPoint { x, y: 912 }, &board),
            Err(InteractionError::InvalidPromotionChoice)
        );
    }
}

#[test]
fn the_promotion_menu_is_inactive_without_a_pending_promotion() {
    let mut c = controller();
    let board = opening();
    assert_eq!(click(&mut c, PixelPoint { x: 270, y: 900 }, &board), Ok(None));
    assert_eq!(click(&mut c, PixelPoint { x: 500, y: 900 }, &board), Ok(None));
    let other_side = opening().with_pending_promotion(Color::Black, Some(PieceKind::Queen));
    assert_eq!(click(&mut c, PixelPoint { x: 270, y: 900 }, &other_side), Ok(None));
}

#[test]
fn the_promotion_menu_leaves_the_selection_alone() {
    let board = opening().with_pending_promotion(Color::White, Some(PieceKind::Queen));
    let mut c = controller();
    select(&mut c, "e2", &["e3", "e4"], &board);
    assert_eq!(
        click(&mut c, PixelPoint { x: 350, y: 900 }, &board),
        Ok(Some(EngineRequest::SetPromotion { color: Color::White, kind: PieceKind::Knight }))
    );
    assert_eq!(*c.selection(), selected("e2", &["e3", "e4"]));
    assert_eq!(
        click(&mut c, at("e4"), &board),
        Ok(Some(EngineRequest::SubmitMove { from: sq("e2"), to: sq("e4") }))
    );
}

#[test]
fn dispatch_tries_reset_then_menu_then_board() {
    let everywhere = Region { left: -1, top: -1, right: 1000, bottom: 1000 };
    let nowhere = Region { left: 0, top: 0, right: 0, bottom: 0 };
    let panel = PromotionPanel {
        menu: everywhere,
        queen: everywhere,
        bishop: everywhere,
        rook: everywhere,
        knight: everywhere,
    };
    let board = opening().with_pending_promotion(Color::White, Some(PieceKind::Queen));
    let mut layout = Layout {
        board_origin: PixelPoint { x: 0, y: 0 },
        cell_size: CellSize { width: 90, height: 90 },
        board_size: 8,
        reset: ResetControl { region: everywhere },
        promotion: panel,
    };
    let mut c = BoardInteractionController::new(layout);
    assert_eq!(click(&mut c, at("e2"), &board), Ok(Some(EngineRequest::NewGame)));
    layout.reset = ResetControl { region: nowhere };
    let mut c = BoardInteractionController::new(layout);
    assert_eq!(
        click(&mut c, at("e2"), &board),
        Ok(Some(EngineRequest::SetPromotion { color: Color::White, kind: PieceKind::Queen }))
    );
    layout.promotion.menu = nowhere;
    let mut c = BoardInteractionController::new(layout);
    assert_eq!(
        click(&mut c, at("e2"), &board),
        Ok(Some(EngineRequest::LegalMoves { from: sq("e2") }))
    );
}

#[test]
fn overlapping_choices_go_queen_bishop_rook_knight() {
    let all = Region { left: 0, top: 0, right: 10, bottom: 10 };
    let none = Region { left: 0, top: 0, right: 0, bottom: 0 };
    let p = PixelPoint { x: 5, y: 5 };
    let mut panel = PromotionPanel { menu: none, queen: all, bishop: all, rook: all, knight: all };
    assert_eq!(panel.handle_click(p), Some(PieceKind::Queen));
    panel.queen = none;
    assert_eq!(panel.handle_click(p), Some(PieceKind::Bishop));
    panel.bishop = none;
    assert_eq!(panel.handle_click(p), Some(PieceKind::Rook));
    panel.rook = none;
    assert_eq!(panel.handle_click(p), Some(PieceKind::Knight));
    panel.knight = none;
    assert_eq!(panel.handle_click(p), None);
}

#[test]
fn reset_control_fires_inside_its_region_only() {
    let reset = Layout::standard().reset;
    assert!(reset.fires(PixelPoint { x: 12, y: 736 }));
    assert!(reset.fires(PixelPoint { x: 102, y: 757 }));
    assert!(!reset.fires(PixelPoint { x: 11, y: 736 }));
    assert!(!reset.fires(PixelPoint { x: 12, y: 758 }));
    assert!(!reset.fires(PixelPoint { x: 400, y: 400 }));
}

#[test]
fn the_standard_layout() {
    let l = Layout::standard();
    assert_eq!(l.board_origin, PixelPoint { x: 0, y: 0 });
    assert_eq!(l.cell_size, CellSize { width: 90, height: 90 });
    assert_eq!(l.board_size, 8);
    assert_eq!(l.reset.region, Region { left: 11, top: 735, right: 103, bottom: 758 });
    assert_eq!(l.promotion.queen, Region { left: 29, top: 895, right: 97, bottom: 913 });
    assert_eq!(l.promotion.bishop, Region { left: 132, top: 895, right: 210, bottom: 913 });
    assert_eq!(l.promotion.rook, Region { left: 247, top: 895, right: 300, bottom: 913 });
    assert_eq!(l.promotion.knight, Region { left: 331, top: 895, right: 410, bottom: 913 });
}

#[test]
fn mirror_promotion_reads_both_sides() {
    let board = opening();
    assert_eq!(mirror_promotion(&board), None);
    let board = board.with_pending_promotion(Color::White, Some(PieceKind::Bishop));
    assert_eq!(
        mirror_promotion(&board),
        Some(PendingPromotion { white: Some(PieceKind::Bishop), black: None })
    );
    let board = board.with_pending_promotion(Color::Black, Some(PieceKind::Knight));
    assert_eq!(
        mirror_promotion(&board),
        Some(PendingPromotion { white: Some(PieceKind::Bishop), black: Some(PieceKind::Knight) })
    );
    let board = board
        .with_pending_promotion(Color::White, None)
        .with_pending_promotion(Color::Black, None);
    assert_eq!(mirror_promotion(&board), None);
}

#[test]
fn a_king_or_a_pawn_is_no_promotion_choice() {
    let board = opening()
        .with_pending_promotion(Color::White, Some(PieceKind::Queen))
        .with_pending_promotion(Color::White, Some(PieceKind::King))
        .with_pending_promotion(Color::Black, Some(PieceKind::Pawn));
    assert_eq!(board.pending_promotion(Color::White), None);
    assert_eq!(board.pending_promotion(Color::Black), None);
    assert!(PieceKind::Queen.is_promotable());
    assert!(PieceKind::Rook.is_promotable());
    assert!(PieceKind::Bishop.is_promotable());
    assert!(PieceKind::Knight.is_promotable());
    assert!(!PieceKind::King.is_promotable());
    assert!(!PieceKind::Pawn.is_promotable());
}

#[test]
fn snapshot_reads_back_what_was_recorded() {
    let board = opening();
    assert_eq!(board.active_color(), Color::White);
    assert_eq!(
        board.piece_at(sq("e1")),
        Some(Piece { color: Color::White, kind: PieceKind::King })
    );
    assert_eq!(
        board.piece_at(sq("d8")),
        Some(Piece { color: Color::Black, kind: PieceKind::Queen })
    );
    assert_eq!(board.piece_at(sq("e4")), None);
    assert!(board.own_piece_at(sq("a2")));
    assert!(!board.own_piece_at(sq("a7")));
    assert!(!board.own_piece_at(sq("a5")));
    let board = board.with_occupant(sq("e2"), None).with_active(Color::Black);
    assert_eq!(board.piece_at(sq("e2")), None);
    assert_eq!(board.piece_at(sq("d2")), Some(Piece { color: Color::White, kind: PieceKind::Pawn }));
    assert!(board.own_piece_at(sq("a7")));
    assert!(!board.own_piece_at(sq("a2")));
    let empty = BoardSnapshot::empty(Color::Black);
    assert_eq!(empty.active_color(), Color::Black);
    for file in 1..=8u8 {
        for rank in 1..=8u8 {
            assert_eq!(empty.piece_at(Square { file, rank }), None);
        }
    }
    assert_eq!(empty.pending_promotion(Color::White), None);
    assert_eq!(empty.pending_promotion(Color::Black), None);
}

#[test]
fn the_machine_alone_follows_the_same_table() {
    let board = opening();
    let mut m = SelectionStateMachine::new();
    assert_eq!(*m.state(), SelectionState::Idle);
    assert_eq!(m.click(sq("e5"), &board), None);
    assert_eq!(m.click(sq("b1"), &board), Some(EngineRequest::LegalMoves { from: sq("b1") }));
    m.legal_moves_reported(texts(&["a3", "c3"]));
    assert!(m.is_destination(sq("a3")));
    assert!(m.is_destination(sq("c3")));
    assert!(!m.is_destination(sq("b1")));
    assert!(!m.is_destination(sq("b3")));
    assert_eq!(
        m.click(sq("c3"), &board),
        Some(EngineRequest::SubmitMove { from: sq("b1"), to: sq("c3") })
    );
    assert_eq!(m.awaiting(), Awaiting::Verdict);
    assert_eq!(m.move_resolved(false), Err(InteractionError::IllegalMove));
    assert_eq!(*m.state(), SelectionState::Idle);
    m.click(sq("b1"), &board);
    m.legal_moves_reported(texts(&["a3"]));
    m.reset();
    assert_eq!(*m.state(), SelectionState::Idle);
    assert_eq!(m.awaiting(), Awaiting::Nothing);
    assert!(!m.is_destination(sq("a3")));
}
