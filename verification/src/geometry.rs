//! Screen geometry: points, hit regions, and the mapping between pixels
//! and board squares.
//!
//! Coordinates are whole pixels. White is always painted at the bottom, so
//! screen row 0 is rank 8.

use vstd::prelude::*;
use crate::error::InteractionError;
use crate::square::{grid_square, Square};

verus! {

/// A position on the screen, in whole pixels.
#[derive(Clone, Copy, Debug, PartialEq, Eq, Structural, Hash)]
pub struct PixelPoint {
    pub x: i32,
    pub y: i32,
}

/// The width and height of one board cell, in pixels.
#[derive(Clone, Copy, Debug, PartialEq, Eq, Structural, Hash)]
pub struct CellSize {
    pub width: i32,
    pub height: i32,
}

/// A rectangular hit region. A point is inside when it lies strictly
/// between the left and right edges and strictly between top and bottom.
#[derive(Clone, Copy, Debug, PartialEq, Eq, Structural, Hash)]
pub struct Region {
    pub left: i32,
    pub top: i32,
    pub right: i32,
    pub bottom: i32,
}

impl Region {
    /// Whether a point lies strictly inside the region.
    pub open spec fn holds(self, p: PixelPoint) -> bool {
        self.left < p.x < self.right && self.top < p.y < self.bottom
    }

    /// Whether a point lies strictly inside the region.
    pub fn contains(&self, p: PixelPoint) -> (r: bool)
        ensures
            r == self.holds(p),
    {
        self.left < p.x && p.x < self.right && self.top < p.y && p.y < self.bottom
    }
}

/// The column under a point: the horizontal distance from the board's
/// origin, divided by the cell width and rounded down.
pub open spec fn grid_col(point: PixelPoint, origin: PixelPoint, cell: CellSize) -> int {
    (point.x - origin.x) / (cell.width as int)
}

/// The row under a point: the vertical distance from the board's origin,
/// divided by the cell height and rounded down.
pub open spec fn grid_row(point: PixelPoint, origin: PixelPoint, cell: CellSize) -> int {
    (point.y - origin.y) / (cell.height as int)
}

/// Whether a point falls on a board of `board_size` rows and columns. A
/// board with cells of no extent, or of more than eight rows, has no
/// squares to fall on.
pub open spec fn on_grid(point: PixelPoint, origin: PixelPoint, cell: CellSize, board_size: u8) -> bool {
    &&& cell.width > 0
    &&& cell.height > 0
    &&& board_size <= 8
    &&& 0 <= grid_col(point, origin, cell) < board_size
    &&& 0 <= grid_row(point, origin, cell) < board_size
}

/// The square under a point, if the point falls on the board.
pub open spec fn point_square(
    point: PixelPoint,
    origin: PixelPoint,
    cell: CellSize,
    board_size: u8,
) -> Result<Square, InteractionError> {
    if on_grid(point, origin, cell, board_size) {
        Ok(grid_square(grid_row(point, origin, cell), grid_col(point, origin, cell)))
    } else {
        Err(InteractionError::OutOfBounds)
    }
}

/// The top-left corner of a square's cell, as unbounded integers.
pub open spec fn square_corner(square: Square, origin: PixelPoint, cell: CellSize) -> (int, int) {
    (origin.x + (square.file - 1) * cell.width, origin.y + (8 - square.rank) * cell.height)
}

/// The top-left corner of a square's cell as a pixel position, where it is
/// one.
pub open spec fn corner_pixel(square: Square, origin: PixelPoint, cell: CellSize) -> Option<
    PixelPoint,
> {
    let (x, y) = square_corner(square, origin, cell);
    if i32::MIN <= x <= i32::MAX && i32::MIN <= y <= i32::MAX {
        Some(PixelPoint { x: x as i32, y: y as i32 })
    } else {
        None
    }
}

proof fn lemma_floor_sign(a: int, d: int)
    requires
        d > 0,
    ensures
        a < 0 ==> a / d < 0,
        a >= 0 ==> a / d >= 0,
{
    assert(a < 0 ==> a / d < 0) by (nonlinear_arith)
        requires
            d > 0,
    ;
    assert(a >= 0 ==> a / d >= 0) by (nonlinear_arith)
        requires
            d > 0,
    ;
}

proof fn lemma_cell_floor(k: int, d: int, r: int)
    requires
        d > 0,
        0 <= r < d,
    ensures
        (k * d + r) / d == k,
{
    vstd::arithmetic::div_mod::lemma_fundamental_div_mod_converse(k * d + r, d, k, r);
}

proof fn lemma_steps_fit(k: int, d: int)
    requires
        0 <= k <= 7,
        -0x8000_0000 <= d < 0x8000_0000,
    ensures
        -0x4_0000_0000 <= k * d <= 0x4_0000_0000,
{
    assert(-0x4_0000_0000 <= k * d <= 0x4_0000_0000) by (nonlinear_arith)
        requires
            0 <= k <= 7,
            -0x8000_0000 <= d < 0x8000_0000,
    ;
}

/// Resolves a point to the square painted under it.
///
/// Fails with `OutOfBounds` exactly when the point is left of or above the
/// origin, at or beyond `board_size` cells from it, or the board has no
/// squares at all.
pub fn pixel_to_square(
    point: PixelPoint,
    board_origin: PixelPoint,
    cell_size: CellSize,
    board_size: u8,
) -> (r: Result<Square, InteractionError>)
    ensures
        r == point_square(point, board_origin, cell_size, board_size),
        r is Ok ==> r->Ok_0.wf(),
{
    if cell_size.width <= 0 || cell_size.height <= 0 || board_size > 8 {
        return Err(InteractionError::OutOfBounds);
    }
    let dx: i64 = point.x as i64 - board_origin.x as i64;
    let dy: i64 = point.y as i64 - board_origin.y as i64;
    proof {
        lemma_floor_sign(dx as int, cell_size.width as int);
        lemma_floor_sign(dy as int, cell_size.height as int);
    }
    if dx < 0 || dy < 0 {
        return Err(InteractionError::OutOfBounds);
    }
    let col: i64 = dx / (cell_size.width as i64);
    let row: i64 = dy / (cell_size.height as i64);
    if col >= board_size as i64 || row >= board_size as i64 {
        return Err(InteractionError::OutOfBounds);
    }
    Ok(Square { file: (col + 1) as u8, rank: (8 - row) as u8 })
}

/// The top-left corner of the cell in which a square is painted, or
/// nothing when that corner is not a representable pixel position.
pub fn square_to_pixel(square: Square, board_origin: PixelPoint, cell_size: CellSize) -> (r: Option<
    PixelPoint,
>)
    requires
        square.wf(),
    ensures
        r == corner_pixel(square, board_origin, cell_size),
{
    let right: i64 = square.file as i64 - 1;
    let down: i64 = 8 - square.rank as i64;
    proof {
        lemma_steps_fit(right as int, cell_size.width as int);
        lemma_steps_fit(down as int, cell_size.height as int);
    }
    let x: i64 = board_origin.x as i64 + right * (cell_size.width as i64);
    let y: i64 = board_origin.y as i64 + down * (cell_size.height as i64);
    if x < i32::MIN as i64 || x > i32::MAX as i64 || y < i32::MIN as i64 || y > i32::MAX as i64 {
        None
    } else {
        Some(PixelPoint { x: x as i32, y: y as i32 })
    }
}

/// Every point of a square's cell resolves to that square: the corner of
/// the cell, moved right by less than a cell's width and down by less than
/// a cell's height.
pub proof fn lemma_cell_resolves_to_square(
    square: Square,
    origin: PixelPoint,
    cell: CellSize,
    board_size: u8,
    point: PixelPoint,
)
    requires
        square.wf(),
        cell.width > 0,
        cell.height > 0,
        board_size <= 8,
        square.file <= board_size,
        8 - square.rank < board_size,
        square_corner(square, origin, cell).0 <= point.x < square_corner(square, origin, cell).0
            + cell.width,
        square_corner(square, origin, cell).1 <= point.y < square_corner(square, origin, cell).1
            + cell.height,
    ensures
        point_square(point, origin, cell, board_size) == Ok::<Square, InteractionError>(square),
{
    let (cx, cy) = square_corner(square, origin, cell);
    lemma_cell_floor(square.file - 1, cell.width as int, point.x - cx);
    lemma_cell_floor(8 - square.rank, cell.height as int, point.y - cy);
    assert(point.x - origin.x == (square.file - 1) * cell.width + (point.x - cx));
    assert(point.y - origin.y == (8 - square.rank) * cell.height + (point.y - cy));
}

/// A point resolves to a square only if it lies in that square's cell.
pub proof fn lemma_square_only_from_its_cell(
    point: PixelPoint,
    origin: PixelPoint,
    cell: CellSize,
    board_size: u8,
)
    requires
        point_square(point, origin, cell, board_size) is Ok,
    ensures
        ({
            let square = point_square(point, origin, cell, board_size)->Ok_0;
            let (cx, cy) = square_corner(square, origin, cell);
            &&& square.wf()
            &&& cx <= point.x < cx + cell.width
            &&& cy <= point.y < cy + cell.height
        }),
{
    let dx = point.x - origin.x;
    let dy = point.y - origin.y;
    vstd::arithmetic::div_mod::lemma_fundamental_div_mod(dx, cell.width as int);
    vstd::arithmetic::div_mod::lemma_fundamental_div_mod(dy, cell.height as int);
    vstd::arithmetic::div_mod::lemma_mod_bound(dx, cell.width as int);
    vstd::arithmetic::div_mod::lemma_mod_bound(dy, cell.height as int);
    let col = dx / (cell.width as int);
    let row = dy / (cell.height as int);
    assert(col * cell.width == cell.width * col) by (nonlinear_arith);
    assert(row * cell.height == cell.height * row) by (nonlinear_arith);
}

} // verus!
