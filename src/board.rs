use vstd::prelude::*;

use crate::bitboard::{id, square_index, Bitboard};
use crate::piece::{glyph_of, Piece};

verus! {

/// Castling rights as four flags: white king side (bit 0), white queen side
/// (bit 1), black king side (bit 2), black queen side (bit 3).
#[derive(Clone, Copy, Debug, PartialEq, Eq, Structural)]
pub struct Castling(pub u8);

/// Setting one flag leaves the other three as they were.
pub proof fn lemma_set_flag(x: u8)
    ensures
        (x | 1) & 1 == 1,
        (x | 1) & 2 == x & 2,
        (x | 1) & 4 == x & 4,
        (x | 1) & 8 == x & 8,
        (x | 2) & 1 == x & 1,
        (x | 2) & 2 == 2,
        (x | 2) & 4 == x & 4,
        (x | 2) & 8 == x & 8,
        (x | 4) & 1 == x & 1,
        (x | 4) & 2 == x & 2,
        (x | 4) & 4 == 4,
        (x | 4) & 8 == x & 8,
        (x | 8) & 1 == x & 1,
        (x | 8) & 2 == x & 2,
        (x | 8) & 4 == x & 4,
        (x | 8) & 8 == 8,
{
    assert((x | 1) & 1 == 1 && (x | 1) & 2 == x & 2 && (x | 1) & 4 == x & 4 && (x | 1) & 8 == x
        & 8) by (bit_vector);
    assert((x | 2) & 1 == x & 1 && (x | 2) & 2 == 2 && (x | 2) & 4 == x & 4 && (x | 2) & 8 == x
        & 8) by (bit_vector);
    assert((x | 4) & 1 == x & 1 && (x | 4) & 2 == x & 2 && (x | 4) & 4 == 4 && (x | 4) & 8 == x
        & 8) by (bit_vector);
    assert((x | 8) & 1 == x & 1 && (x | 8) & 2 == x & 2 && (x | 8) & 4 == x & 4 && (x | 8) & 8
        == 8) by (bit_vector);
}

impl Castling {
    pub open spec fn white_king(self) -> bool {
        self.0 & 1 == 1
    }

    pub open spec fn white_queen(self) -> bool {
        self.0 & 2 == 2
    }

    pub open spec fn black_king(self) -> bool {
        self.0 & 4 == 4
    }

    pub open spec fn black_queen(self) -> bool {
        self.0 & 8 == 8
    }

    pub fn new(v: u8) -> (r: Self)
        ensures
            r.0 == v,
    {
        Castling(v)
    }

    pub fn can_white_king(&self) -> (r: bool)
        ensures
            r == self.white_king(),
    {
        self.0 & 1 == 1
    }

    pub fn set_white_king(&mut self)
        ensures
            final(self).0 == old(self).0 | 1,
            final(self).white_king(),
            final(self).white_queen() == old(self).white_queen(),
            final(self).black_king() == old(self).black_king(),
            final(self).black_queen() == old(self).black_queen(),
    {
        proof {
            lemma_set_flag(self.0);
        }
        self.0 = self.0 | 1;
    }

    pub fn can_white_queen(&self) -> (r: bool)
        ensures
            r == self.white_queen(),
    {
        self.0 & 2 == 2
    }

    pub fn set_white_queen(&mut self)
        ensures
            final(self).0 == old(self).0 | 2,
            final(self).white_queen(),
            final(self).white_king() == old(self).white_king(),
            final(self).black_king() == old(self).black_king(),
            final(self).black_queen() == old(self).black_queen(),
    {
        proof {
            lemma_set_flag(self.0);
        }
        self.0 = self.0 | 2;
    }

    pub fn can_black_king(&self) -> (r: bool)
        ensures
            r == self.black_king(),
    {
        self.0 & 4 == 4
    }

    pub fn set_black_king(&mut self)
        ensures
            final(self).0 == old(self).0 | 4,
            final(self).black_king(),
            final(self).white_king() == old(self).white_king(),
            final(self).white_queen() == old(self).white_queen(),
            final(self).black_queen() == old(self).black_queen(),
    {
        proof {
            lemma_set_flag(self.0);
        }
        self.0 = self.0 | 4;
    }

    pub fn can_black_queen(&self) -> (r: bool)
        ensures
            r == self.black_queen(),
    {
        self.0 & 8 == 8
    }

    pub fn set_black_queen(&mut self)
        ensures
            final(self).0 == old(self).0 | 8,
            final(self).black_queen(),
            final(self).white_king() == old(self).white_king(),
            final(self).white_queen() == old(self).white_queen(),
            final(self).black_king() == old(self).black_king(),
    {
        proof {
            lemma_set_flag(self.0);
        }
        self.0 = self.0 | 8;
    }
}

/// A static chess position: occupancy by colour and by piece kind, side to
/// move, castling rights, en-passant target and the two move counters.
#[derive(Clone, Copy, Debug, PartialEq, Eq, Structural)]
pub struct Board {
    pub whites: Bitboard,
    pub blacks: Bitboard,
    pub pawns: Bitboard,
    pub rooks: Bitboard,
    pub knights: Bitboard,
    pub bishops: Bitboard,
    pub queens: Bitboard,
    pub kings: Bitboard,
    pub white_active: bool,
    pub castling: Castling,
    pub en_passant: Bitboard,
    pub halfmove: u64,
    pub fullmove: u64,
}

/// The position with no pieces, white to move, no castling rights, no
/// en-passant target, halfmove clock 0 and fullmove number 1.
pub open spec fn empty_board() -> Board {
    Board {
        whites: Bitboard(0),
        blacks: Bitboard(0),
        pawns: Bitboard(0),
        rooks: Bitboard(0),
        knights: Bitboard(0),
        bishops: Bitboard(0),
        queens: Bitboard(0),
        kings: Bitboard(0),
        white_active: true,
        castling: Castling(0),
        en_passant: Bitboard(0),
        halfmove: 0,
        fullmove: 1,
    }
}

/// The piece of one colour on square `s`, by the kind masks tested in the
/// order pawn, rook, knight, bishop, queen, king; `Empty` if none holds `s`.
pub open spec fn kind_at(b: Board, s: u64, white: bool) -> Piece {
    if b.pawns.has(s) {
        Piece::Pawn(white)
    } else if b.rooks.has(s) {
        Piece::Rook(white)
    } else if b.knights.has(s) {
        Piece::Knight(white)
    } else if b.bishops.has(s) {
        Piece::Bishop(white)
    } else if b.queens.has(s) {
        Piece::Queen(white)
    } else if b.kings.has(s) {
        Piece::King(white)
    } else {
        Piece::Empty
    }
}

/// The piece on square `s`: white if the white mask holds it, else black if
/// the black mask does, else `Empty`.
pub open spec fn piece_on(b: Board, s: u64) -> Piece {
    if b.whites.has(s) {
        kind_at(b, s, true)
    } else if b.blacks.has(s) {
        kind_at(b, s, false)
    } else {
        Piece::Empty
    }
}

/// The position with piece `p` toggled on square `s`: the bit of `s` flips in
/// the mask of the piece's kind and in the mask of its colour.
pub open spec fn with_toggled(b: Board, p: Piece, s: u64) -> Board {
    let b1 = match p {
        Piece::Empty => b,
        Piece::Pawn(_) => Board { pawns: b.pawns.toggled(s), ..b },
        Piece::Rook(_) => Board { rooks: b.rooks.toggled(s), ..b },
        Piece::Knight(_) => Board { knights: b.knights.toggled(s), ..b },
        Piece::Bishop(_) => Board { bishops: b.bishops.toggled(s), ..b },
        Piece::Queen(_) => Board { queens: b.queens.toggled(s), ..b },
        Piece::King(_) => Board { kings: b.kings.toggled(s), ..b },
    };
    match p {
        Piece::Empty => b1,
        Piece::Pawn(w) | Piece::Rook(w) | Piece::Knight(w) | Piece::Bishop(w) | Piece::Queen(
            w,
        ) | Piece::King(w) => if w {
            Board { whites: b1.whites.toggled(s), ..b1 }
        } else {
            Board { blacks: b1.blacks.toggled(s), ..b1 }
        },
    }
}

impl Board {
    /// Each square is held by at most one colour, and an occupied square by
    /// exactly one piece kind.
    pub open spec fn well_formed(self) -> bool {
        forall|s: u64|
            s < 64 ==> {
                &&& !(#[trigger] self.whites.has(s) && self.blacks.has(s))
                &&& (self.whites.has(s) || self.blacks.has(s)) ==> self.kinds_on(s) == 1
            }
    }

    /// How many of the six kind masks hold square `s`.
    pub open spec fn kinds_on(self, s: u64) -> int {
        (if self.pawns.has(s) { 1int } else { 0 }) + (if self.rooks.has(s) { 1int } else { 0 }) + (
        if self.knights.has(s) { 1int } else { 0 }) + (if self.bishops.has(s) { 1int } else { 0 })
            + (if self.queens.has(s) { 1int } else { 0 }) + (if self.kings.has(s) { 1int } else { 0 })
    }

    pub fn new() -> (r: Self)
        ensures
            r == empty_board(),
    {
        Board {
            whites: Bitboard::new(0),
            blacks: Bitboard::new(0),
            pawns: Bitboard::new(0),
            rooks: Bitboard::new(0),
            knights: Bitboard::new(0),
            bishops: Bitboard::new(0),
            queens: Bitboard::new(0),
            kings: Bitboard::new(0),
            white_active: true,
            castling: Castling::new(0),
            en_passant: Bitboard::new(0),
            halfmove: 0,
            fullmove: 1,
        }
    }

    /// The piece on the square at `rank` and `file`.
    pub fn get_piece(&self, rank: u64, file: u64) -> (r: Piece)
        requires
            rank < 8,
            file < 8,
        ensures
            r == piece_on(*self, square_index(rank as int, file as int) as u64),
    {
        let square = id(rank, file);
        if self.whites.bit(square) > 0 {
            self.kind_on(square, true)
        } else if self.blacks.bit(square) > 0 {
            self.kind_on(square, false)
        } else {
            Piece::Empty
        }
    }

    fn kind_on(&self, square: u64, white: bool) -> (r: Piece)
        requires
            square < 64,
        ensures
            r == kind_at(*self, square, white),
    {
        if self.pawns.bit(square) > 0 {
            Piece::Pawn(white)
        } else if self.rooks.bit(square) > 0 {
            Piece::Rook(white)
        } else if self.knights.bit(square) > 0 {
            Piece::Knight(white)
        } else if self.bishops.bit(square) > 0 {
            Piece::Bishop(white)
        } else if self.queens.bit(square) > 0 {
            Piece::Queen(white)
        } else if self.kings.bit(square) > 0 {
            Piece::King(white)
        } else {
            Piece::Empty
        }
    }

    /// The board as printed: eight rows of eight glyphs, the first row being
    /// rank "8" and the first column file "a".
    pub fn grid(&self) -> (r: Vec<Vec<char>>)
        ensures
            r@.len() == 8,
            forall|i: int| 0 <= i < 8 ==> (#[trigger] r@[i])@.len() == 8,
            forall|i: int, f: int|
                0 <= i < 8 && 0 <= f < 8 ==> (#[trigger] r@[i]@[f]) == glyph_of(
                    piece_on(*self, square_index(7 - i, f) as u64),
                ),
    {
        let mut rows: Vec<Vec<char>> = Vec::new();
        let mut i: u64 = 0;
        while i < 8
            invariant
                i <= 8,
                rows@.len() == i,
                forall|j: int| 0 <= j < i ==> (#[trigger] rows@[j])@.len() == 8,
                forall|j: int, f: int|
                    0 <= j < i && 0 <= f < 8 ==> (#[trigger] rows@[j]@[f]) == glyph_of(
                        piece_on(*self, square_index(7 - j, f) as u64),
                    ),
            decreases 8 - i,
        {
            let mut row: Vec<char> = Vec::new();
            let mut f: u64 = 0;
            while f < 8
                invariant
                    i < 8,
                    f <= 8,
                    row@.len() == f,
                    forall|g: int|
                        0 <= g < f ==> (#[trigger] row@[g]) == glyph_of(
                            piece_on(*self, square_index(7 - i, g) as u64),
                        ),
                decreases 8 - f,
            {
                let p = self.get_piece(7 - i, f);
                row.push(p.glyph());
                f = f + 1;
            }
            rows.push(row);
            i = i + 1;
        }
        rows
    }

    /// Toggles piece `p` on square `s`, as a placement letter does.
    pub fn toggle_piece(&mut self, p: Piece, s: u64)
        requires
            s < 64,
        ensures
            *final(self) == with_toggled(*old(self), p, s),
    {
        match p {
            Piece::Empty => {},
            Piece::Pawn(_) => self.pawns.toggle_bit(s),
            Piece::Rook(_) => self.rooks.toggle_bit(s),
            Piece::Knight(_) => self.knights.toggle_bit(s),
            Piece::Bishop(_) => self.bishops.toggle_bit(s),
            Piece::Queen(_) => self.queens.toggle_bit(s),
            Piece::King(_) => self.kings.toggle_bit(s),
        }
        match p {
            Piece::Empty => {},
            Piece::Pawn(w) | Piece::Rook(w) | Piece::Knight(w) | Piece::Bishop(w) | Piece::Queen(
                w,
            ) | Piece::King(w) => if w {
                self.whites.toggle_bit(s)
            } else {
                self.blacks.toggle_bit(s)
            },
        }
    }
}

} // verus!
