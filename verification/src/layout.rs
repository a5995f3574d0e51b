//! Where things are on the screen: the board, the reset control and the
//! promotion menu.

use vstd::prelude::*;
use crate::geometry::{CellSize, PixelPoint, Region};
use crate::promotion::PromotionPanel;

verus! {

/// The single hit region that discards the game.
#[derive(Clone, Copy, Debug, PartialEq, Eq, Structural, Hash)]
pub struct ResetControl {
    pub region: Region,
}

impl ResetControl {
    /// Whether a click at `point` fires the control.
    pub fn fires(&self, point: PixelPoint) -> (r: bool)
        ensures
            r == self.region.holds(point),
    {
        self.region.contains(point)
    }
}

/// The screen layout that a controller works with.
#[derive(Clone, Copy, Debug, PartialEq, Eq, Structural, Hash)]
pub struct Layout {
    /// The top-left corner of the board.
    pub board_origin: PixelPoint,
    /// The extent of one cell.
    pub cell_size: CellSize,
    /// The number of rows, and of columns, of the board.
    pub board_size: u8,
    /// The reset control.
    pub reset: ResetControl,
    /// The promotion menu.
    pub promotion: PromotionPanel,
}

impl Layout {
    /// The layout of the standard window: a board of 8 by 8 cells of 90
    /// pixels at the top-left corner, with the menu below it.
    pub open spec fn standard_layout() -> Layout {
        Layout {
            board_origin: PixelPoint { x: 0, y: 0 },
            cell_size: CellSize { width: 90, height: 90 },
            board_size: 8,
            reset: ResetControl { region: Region { left: 11, top: 735, right: 103, bottom: 758 } },
            promotion: PromotionPanel {
                menu: Region { left: 0, top: 895, right: 720, bottom: 913 },
                queen: Region { left: 29, top: 895, right: 97, bottom: 913 },
                bishop: Region { left: 132, top: 895, right: 210, bottom: 913 },
                rook: Region { left: 247, top: 895, right: 300, bottom: 913 },
                knight: Region { left: 331, top: 895, right: 410, bottom: 913 },
            },
        }
    }

    /// The layout of the standard window.
    pub fn standard() -> (layout: Layout)
        ensures
            layout == Layout::standard_layout(),
    {
        Layout {
            board_origin: PixelPoint { x: 0, y: 0 },
            cell_size: CellSize { width: 90, height: 90 },
            board_size: 8,
            reset: ResetControl { region: Region { left: 11, top: 735, right: 103, bottom: 758 } },
            promotion: PromotionPanel {
                menu: Region { left: 0, top: 895, right: 720, bottom: 913 },
                queen: Region { left: 29, top: 895, right: 97, bottom: 913 },
                bishop: Region { left: 132, top: 895, right: 210, bottom: 913 },
                rook: Region { left: 247, top: 895, right: 300, bottom: 913 },
                knight: Region { left: 331, top: 895, right: 410, bottom: 913 },
            },
        }
    }
}

} // verus!
