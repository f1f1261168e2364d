use vstd::prelude::*;

use crate::bitboard::{bit_set, square_index, Bitboard};
use crate::board::{empty_board, piece_on, Board};
use crate::piece::Piece;
use crate::render::board_cells;

verus! {

/// Distinct (rank, file) pairs on the board have distinct storage indices.
pub proof fn lemma_index_injective(r1: int, f1: int, r2: int, f2: int)
    requires
        0 <= r1 < 8,
        0 <= f1 < 8,
        0 <= r2 < 8,
        0 <= f2 < 8,
        square_index(r1, f1) == square_index(r2, f2),
    ensures
        r1 == r2,
        f1 == f2,
{
}

/// Every storage index from 0 to 63 is the index of some (rank, file) pair
/// on the board.
pub proof fn lemma_index_onto(s: int)
    requires
        0 <= s < 64,
    ensures
        exists|r: int, f: int| 0 <= r < 8 && 0 <= f < 8 && #[trigger] square_index(r, f) == s,
{
    assert(square_index(s / 8, s % 8) == s);
}

/// Toggling the same square twice gives back the set it started from.
pub proof fn lemma_toggle_twice(b: Bitboard, n: u64)
    requires
        n < 64,
    ensures
        b.toggled(n).toggled(n) == b,
{
    let v = b.0;
    assert(v ^ (1u64 << n) ^ (1u64 << n) == v) by (bit_vector);
}

/// The empty position has nothing on any square.
pub proof fn lemma_empty_board_is_empty(rank: int, file: int)
    requires
        0 <= rank < 8,
        0 <= file < 8,
    ensures
        piece_on(empty_board(), square_index(rank, file) as u64) == Piece::Empty,
{
    let s = square_index(rank, file) as u64;
    assert(!bit_set(0, s)) by (bit_vector);
}

/// On a well-formed position, a square of the printed grid shows a piece
/// glyph exactly when one of the colour masks holds the square, and `.`
/// otherwise.
pub proof fn lemma_grid_marks_occupancy(b: Board, rank: int, file: int)
    requires
        b.well_formed(),
        0 <= rank < 8,
        0 <= file < 8,
    ensures
        ({
            let s = square_index(rank, file) as u64;
            (board_cells(b)[7 - rank][file] != '.') == (b.whites.has(s) || b.blacks.has(s))
        }),
{
    let s = square_index(rank, file) as u64;
    assert(b.whites.has(s) && b.blacks.has(s) ==> false);
    assert(square_index(7 - (7 - rank), file) == square_index(rank, file));
}

} // verus!
