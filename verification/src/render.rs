//! What a renderer paints: the tiles of the board with their shades and
//! occupants, the highlighted promotion choice, and the picture of each
//! piece. Nothing here draws; it says what is to be drawn.

use vstd::prelude::*;
use crate::geometry::{corner_pixel, square_to_pixel, PixelPoint};
use crate::layout::Layout;
use crate::position::{BoardSnapshot, BoardView, Color, Piece, PieceKind};
use crate::selection::{SelectionState, SelectionView};
use crate::square::{grid_square, Square};

verus! {

/// The four ways a tile is filled.
#[derive(Clone, Copy, Debug, PartialEq, Eq, Structural, Hash)]
pub enum TileShade {
    /// The shade of the top-left tile, and of every tile whose row and
    /// column add up to an even number.
    White,
    /// The shade of the other tiles.
    Black,
    /// A white tile that the selected piece may move to.
    WhiteMarked,
    /// A black tile that the selected piece may move to.
    BlackMarked,
}

/// The shade of the tile at a screen row and column.
pub open spec fn shade_of(row: int, col: int, marked: bool) -> TileShade {
    if (row + col) % 2 == 0 {
        if marked {
            TileShade::WhiteMarked
        } else {
            TileShade::White
        }
    } else {
        if marked {
            TileShade::BlackMarked
        } else {
            TileShade::Black
        }
    }
}

/// The shade of the tile at a screen row and column; `marked` says whether
/// the selected piece may move there.
pub fn tile_shade(row: usize, col: usize, marked: bool) -> (shade: TileShade)
    ensures
        shade == shade_of(row as int, col as int, marked),
{
    let even = (row % 2 == 0) == (col % 2 == 0);
    if even {
        if marked {
            TileShade::WhiteMarked
        } else {
            TileShade::White
        }
    } else {
        if marked {
            TileShade::BlackMarked
        } else {
            TileShade::Black
        }
    }
}

/// One tile of the board as it is to be painted.
#[derive(Clone, Copy, Debug, PartialEq, Eq, Structural, Hash)]
pub struct Tile {
    /// The screen row, 0 at the top.
    pub row: u8,
    /// The screen column, 0 at the left.
    pub col: u8,
    /// The square painted there.
    pub square: Square,
    /// The top-left corner of the tile, where it is a pixel position.
    pub corner: Option<PixelPoint>,
    /// How the tile is filled.
    pub shade: TileShade,
    /// The piece that stands on it.
    pub occupant: Option<Piece>,
}

/// The tile at a screen row and column: marked when the selection leads
/// there, and holding what the board holds on its square.
pub open spec fn tile_for(
    row: int,
    col: int,
    selection: SelectionView,
    layout: Layout,
    board: BoardView,
) -> Tile {
    let square = grid_square(row, col);
    Tile {
        row: row as u8,
        col: col as u8,
        square,
        corner: corner_pixel(square, layout.board_origin, layout.cell_size),
        shade: shade_of(row, col, selection.leads_to(square)),
        occupant: board.piece_at(square),
    }
}

/// The number of rows, and of columns, that are painted: a board of more
/// than eight has no squares.
pub open spec fn painted_size(layout: Layout) -> int {
    if layout.board_size <= 8 {
        layout.board_size as int
    } else {
        0
    }
}

/// Where the tile of a row and column stands in paint order: the bottom
/// row first, and within a row the rightmost tile first.
pub open spec fn paint_index(n: int, row: int, col: int) -> int {
    slot(n, n - 1 - row, n - 1 - col)
}

/// The place of the `q`-th tile of the `p`-th painted row.
pub open spec fn slot(n: int, p: int, q: int) -> int {
    p * n + q
}

proof fn lemma_paint_index(n: int, r: int, c: int)
    requires
        0 <= r < n,
        0 <= c < n,
    ensures
        r * n + c < n * n,
        r * n + c + 1 <= (r + 1) * n,
        (r + 1) * n == r * n + n,
        0 <= r * n,
{
    assert((r + 1) * n == r * n + n) by (nonlinear_arith);
    assert(0 <= r * n) by (nonlinear_arith)
        requires
            0 <= r,
            0 <= n,
    ;
    assert((r + 1) * n <= n * n) by (nonlinear_arith)
        requires
            0 <= r + 1 <= n,
    ;
}

proof fn lemma_earlier_row(n: int, p: int, r: int, c: int)
    requires
        0 <= p < r,
        0 <= c < n,
    ensures
        p * n + c < r * n,
{
    assert((p + 1) * n <= r * n) by (nonlinear_arith)
        requires
            0 <= p + 1 <= r,
            0 <= n,
    ;
    assert((p + 1) * n == p * n + n) by (nonlinear_arith);
}

/// The tiles of the board in paint order, for the current selection.
pub fn board_tiles(selection: &SelectionState, layout: &Layout, board: &BoardSnapshot) -> (tiles:
    Vec<Tile>)
    ensures
        tiles@.len() == painted_size(*layout) * painted_size(*layout),
        forall|row: int, col: int|
            0 <= row < painted_size(*layout) && 0 <= col < painted_size(*layout) ==> tiles@[paint_index(
                painted_size(*layout),
                row,
                col,
            )] == tile_for(row, col, selection@, *layout, board@),
{
    let n: usize = if layout.board_size <= 8 {
        layout.board_size as usize
    } else {
        0
    };
    let mut tiles: Vec<Tile> = Vec::new();
    let mut r: usize = 0;
    while r < n
        invariant
            n == painted_size(*layout),
            n <= 8,
            r <= n,
            tiles@.len() == r * n,
            forall|p: int, q: int|
                0 <= p < r && 0 <= q < n ==> tiles@[#[trigger] slot(n as int, p, q)] == tile_for(
                    n - 1 - p,
                    n - 1 - q,
                    selection@,
                    *layout,
                    board@,
                ),
        decreases n - r,
    {
        let mut c: usize = 0;
        while c < n
            invariant
                n == painted_size(*layout),
                n <= 8,
                r < n,
                c <= n,
                tiles@.len() == r * n + c,
                forall|p: int, q: int|
                    0 <= p < r && 0 <= q < n ==> tiles@[#[trigger] slot(n as int, p, q)] == tile_for(
                        n - 1 - p,
                        n - 1 - q,
                        selection@,
                        *layout,
                        board@,
                    ),
                forall|q: int|
                    0 <= q < c ==> tiles@[#[trigger] slot(n as int, r as int, q)] == tile_for(
                        n - 1 - r,
                        n - 1 - q,
                        selection@,
                        *layout,
                        board@,
                    ),
            decreases n - c,
        {
            let row: usize = n - 1 - r;
            let col: usize = n - 1 - c;
            let square = Square { file: (col + 1) as u8, rank: (8 - row) as u8 };
            let tile = Tile {
                row: row as u8,
                col: col as u8,
                square,
                corner: square_to_pixel(square, layout.board_origin, layout.cell_size),
                shade: tile_shade(row, col, selection.leads_to(square)),
                occupant: board.piece_at(square),
            };
            proof {
                lemma_paint_index(n as int, r as int, c as int);
                assert forall|p: int, q: int| 0 <= p < r && 0 <= q < n implies #[trigger] slot(
                    n as int,
                    p,
                    q,
                ) < r * n + c by {
                    lemma_earlier_row(n as int, p, r as int, q);
                }
            }
            tiles.push(tile);
            c += 1;
        }
        proof {
            lemma_paint_index(n as int, r as int, 0);
        }
        r += 1;
    }
    proof {
        assert forall|row: int, col: int| 0 <= row < n && 0 <= col < n implies tiles@[paint_index(
            n as int,
            row,
            col,
        )] == tile_for(row, col, selection@, *layout, board@) by {
            let p = n - 1 - row;
            let q = n - 1 - col;
            assert(tiles@[slot(n as int, p, q)] == tile_for(
                n - 1 - p,
                n - 1 - q,
                selection@,
                *layout,
                board@,
            ));
        }
        assert(r * n == n * n);
    }
    tiles
}

/// The promotion choice that the menu shows as chosen: the one on record
/// for the side to move.
pub fn highlighted_choice(board: &BoardSnapshot) -> (r: Option<PieceKind>)
    ensures
        r == board@.pending_promotion(board@.active),
{
    board.pending_promotion(board.active_color())
}

/// The name of the picture of a piece, among the program's resources.
pub open spec fn sprite_name(color: Color, kind: PieceKind) -> Seq<char> {
    match (color, kind) {
        (Color::Black, PieceKind::King) => "/black_king.png"@,
        (Color::Black, PieceKind::Queen) => "/black_queen.png"@,
        (Color::Black, PieceKind::Rook) => "/black_rook.png"@,
        (Color::Black, PieceKind::Pawn) => "/black_pawn.png"@,
        (Color::Black, PieceKind::Bishop) => "/black_bishop.png"@,
        (Color::Black, PieceKind::Knight) => "/black_knight.png"@,
        (Color::White, PieceKind::King) => "/white_king.png"@,
        (Color::White, PieceKind::Queen) => "/white_queen.png"@,
        (Color::White, PieceKind::Rook) => "/white_rook.png"@,
        (Color::White, PieceKind::Pawn) => "/white_pawn.png"@,
        (Color::White, PieceKind::Bishop) => "/white_bishop.png"@,
        (Color::White, PieceKind::Knight) => "/white_knight.png"@,
    }
}

/// The name of the picture of a piece, among the program's resources.
pub fn sprite_path(color: Color, kind: PieceKind) -> (path: &'static str)
    ensures
        path@ == sprite_name(color, kind),
{
    match (color, kind) {
        (Color::Black, PieceKind::King) => "/black_king.png",
        (Color::Black, PieceKind::Queen) => "/black_queen.png",
        (Color::Black, PieceKind::Rook) => "/black_rook.png",
        (Color::Black, PieceKind::Pawn) => "/black_pawn.png",
        (Color::Black, PieceKind::Bishop) => "/black_bishop.png",
        (Color::Black, PieceKind::Knight) => "/black_knight.png",
        (Color::White, PieceKind::King) => "/white_king.png",
        (Color::White, PieceKind::Queen) => "/white_queen.png",
        (Color::White, PieceKind::Rook) => "/white_rook.png",
        (Color::White, PieceKind::Pawn) => "/white_pawn.png",
        (Color::White, PieceKind::Bishop) => "/white_bishop.png",
        (Color::White, PieceKind::Knight) => "/white_knight.png",
    }
}

} // verus!
