//! Board squares and their two-letter textual form.

use vstd::prelude::*;
use vstd::string::*;

verus! {

/// One of the 64 cells of the board, addressed by file and rank.
///
/// Files run 1 to 8 for the letters `a` to `h`; ranks run 1 to 8.
#[derive(Clone, Copy, Debug, PartialEq, Eq, Structural, Hash)]
pub struct Square {
    pub file: u8,
    pub rank: u8,
}

impl Square {
    /// A square is well formed when file and rank both lie in 1..=8.
    pub open spec fn wf(self) -> bool {
        1 <= self.file <= 8 && 1 <= self.rank <= 8
    }

    /// Builds a square, or nothing when file or rank is off the board.
    pub fn new(file: u8, rank: u8) -> (r: Option<Square>)
        ensures
            r == (if 1 <= file <= 8 && 1 <= rank <= 8 {
                Some(Square { file, rank })
            } else {
                None
            }),
    {
        if 1 <= file && file <= 8 && 1 <= rank && rank <= 8 {
            Some(Square { file, rank })
        } else {
            None
        }
    }

    /// The square painted at a screen row and column, row 0 being rank 8.
    pub fn from_grid(row: usize, col: usize) -> (r: Option<Square>)
        ensures
            r == (if row < 8 && col < 8 {
                Some(grid_square(row as int, col as int))
            } else {
                None
            }),
    {
        if row < 8 && col < 8 {
            Some(Square { file: (col + 1) as u8, rank: (8 - row) as u8 })
        } else {
            None
        }
    }
}

/// The square shown at screen row `row` and column `col`.
pub open spec fn grid_square(row: int, col: int) -> Square {
    Square { file: (col + 1) as u8, rank: (8 - row) as u8 }
}

/// The letter that names a file.
pub open spec fn file_letter(file: int) -> char {
    if file == 1 {
        'a'
    } else if file == 2 {
        'b'
    } else if file == 3 {
        'c'
    } else if file == 4 {
        'd'
    } else if file == 5 {
        'e'
    } else if file == 6 {
        'f'
    } else if file == 7 {
        'g'
    } else {
        'h'
    }
}

/// The digit that names a rank.
pub open spec fn rank_digit(rank: int) -> char {
    if rank == 1 {
        '1'
    } else if rank == 2 {
        '2'
    } else if rank == 3 {
        '3'
    } else if rank == 4 {
        '4'
    } else if rank == 5 {
        '5'
    } else if rank == 6 {
        '6'
    } else if rank == 7 {
        '7'
    } else {
        '8'
    }
}

/// The file that a letter names, if it names one.
pub open spec fn letter_file(c: char) -> Option<u8> {
    if c == 'a' {
        Some(1u8)
    } else if c == 'b' {
        Some(2u8)
    } else if c == 'c' {
        Some(3u8)
    } else if c == 'd' {
        Some(4u8)
    } else if c == 'e' {
        Some(5u8)
    } else if c == 'f' {
        Some(6u8)
    } else if c == 'g' {
        Some(7u8)
    } else if c == 'h' {
        Some(8u8)
    } else {
        None
    }
}

/// The rank that a digit names, if it names one.
pub open spec fn digit_rank(c: char) -> Option<u8> {
    if c == '1' {
        Some(1u8)
    } else if c == '2' {
        Some(2u8)
    } else if c == '3' {
        Some(3u8)
    } else if c == '4' {
        Some(4u8)
    } else if c == '5' {
        Some(5u8)
    } else if c == '6' {
        Some(6u8)
    } else if c == '7' {
        Some(7u8)
    } else if c == '8' {
        Some(8u8)
    } else {
        None
    }
}

/// The textual form of a square: its file letter, then its rank digit.
pub open spec fn square_text(s: Square) -> Seq<char> {
    seq![file_letter(s.file as int), rank_digit(s.rank as int)]
}

/// The square that a text names: exactly two characters, a file letter
/// `a`..`h` and a rank digit `1`..`8`.
pub open spec fn text_square(t: Seq<char>) -> Option<Square> {
    if t.len() == 2 {
        match (letter_file(t[0]), digit_rank(t[1])) {
            (Some(file), Some(rank)) => Some(Square { file, rank }),
            _ => None,
        }
    } else {
        None
    }
}

/// Reading back the text of a well-formed square gives that square.
pub proof fn lemma_text_round_trip(s: Square)
    requires
        s.wf(),
    ensures
        text_square(square_text(s)) == Some(s),
{
}

/// A text names a square only if the square is well formed and the text is
/// that square's textual form: no two texts name the same square.
pub proof fn lemma_text_names_one_square(t: Seq<char>)
    requires
        text_square(t) is Some,
    ensures
        text_square(t)->Some_0.wf(),
        square_text(text_square(t)->Some_0) =~= t,
{
}

fn file_name(file: u8) -> (r: &'static str)
    requires
        1 <= file <= 8,
    ensures
        r@ == seq![file_letter(file as int)],
{
    proof {
        reveal_strlit("a");
        reveal_strlit("b");
        reveal_strlit("c");
        reveal_strlit("d");
        reveal_strlit("e");
        reveal_strlit("f");
        reveal_strlit("g");
        reveal_strlit("h");
    }
    let r = if file == 1 {
        "a"
    } else if file == 2 {
        "b"
    } else if file == 3 {
        "c"
    } else if file == 4 {
        "d"
    } else if file == 5 {
        "e"
    } else if file == 6 {
        "f"
    } else if file == 7 {
        "g"
    } else {
        "h"
    };
    assert(r@ =~= seq![file_letter(file as int)]);
    r
}

fn rank_name(rank: u8) -> (r: &'static str)
    requires
        1 <= rank <= 8,
    ensures
        r@ == seq![rank_digit(rank as int)],
{
    proof {
        reveal_strlit("1");
        reveal_strlit("2");
        reveal_strlit("3");
        reveal_strlit("4");
        reveal_strlit("5");
        reveal_strlit("6");
        reveal_strlit("7");
        reveal_strlit("8");
    }
    let r = if rank == 1 {
        "1"
    } else if rank == 2 {
        "2"
    } else if rank == 3 {
        "3"
    } else if rank == 4 {
        "4"
    } else if rank == 5 {
        "5"
    } else if rank == 6 {
        "6"
    } else if rank == 7 {
        "7"
    } else {
        "8"
    };
    assert(r@ =~= seq![rank_digit(rank as int)]);
    r
}

/// Writes a square in the form the rules engine reads, such as `e4`.
pub fn square_to_string(square: Square) -> (text: String)
    requires
        square.wf(),
    ensures
        text@ == square_text(square),
{
    let text = String::from_str(file_name(square.file)).concat(rank_name(square.rank));
    assert(text@ =~= square_text(square));
    text
}

fn file_of(c: char) -> (r: Option<u8>)
    ensures
        r == letter_file(c),
{
    if c == 'a' {
        Some(1)
    } else if c == 'b' {
        Some(2)
    } else if c == 'c' {
        Some(3)
    } else if c == 'd' {
        Some(4)
    } else if c == 'e' {
        Some(5)
    } else if c == 'f' {
        Some(6)
    } else if c == 'g' {
        Some(7)
    } else if c == 'h' {
        Some(8)
    } else {
        None
    }
}

fn rank_of(c: char) -> (r: Option<u8>)
    ensures
        r == digit_rank(c),
{
    if c == '1' {
        Some(1)
    } else if c == '2' {
        Some(2)
    } else if c == '3' {
        Some(3)
    } else if c == '4' {
        Some(4)
    } else if c == '5' {
        Some(5)
    } else if c == '6' {
        Some(6)
    } else if c == '7' {
        Some(7)
    } else if c == '8' {
        Some(8)
    } else {
        None
    }
}

/// Reads a square from the form the rules engine writes. Anything but a
/// file letter followed by a rank digit names no square.
pub fn string_to_square(text: &str) -> (r: Option<Square>)
    ensures
        r == text_square(text@),
        r is Some ==> r->Some_0.wf(),
{
    if text.unicode_len() != 2 {
        return None;
    }
    let file = file_of(text.get_char(0));
    let rank = rank_of(text.get_char(1));
    match (file, rank) {
        (Some(file), Some(rank)) => Some(Square { file, rank }),
        _ => None,
    }
}

/// The text of the square painted at a screen row and column, where row 0
/// is the top of the board (rank 8) and column 0 is file `a`.
pub fn coordinates_to_string(row: usize, col: usize) -> (text: String)
    requires
        row < 8,
        col < 8,
    ensures
        text@ == square_text(grid_square(row as int, col as int)),
        text_square(text@) == Some(grid_square(row as int, col as int)),
{
    let square = Square { file: (col + 1) as u8, rank: (8 - row) as u8 };
    square_to_string(square)
}

} // verus!
