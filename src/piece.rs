use vstd::prelude::*;

verus! {

/// What stands on a square: nothing, or a piece kind with its colour
/// (`true` for white).
#[derive(Clone, Copy, Debug, PartialEq, Eq, Structural)]
pub enum Piece {
    Empty,
    Pawn(bool),
    Rook(bool),
    Knight(bool),
    Bishop(bool),
    Queen(bool),
    King(bool),
}

/// The letter of a piece kind, in lower case.
pub open spec fn kind_letter(p: Piece) -> char {
    match p {
        Piece::Empty => '.',
        Piece::Pawn(_) => 'p',
        Piece::Rook(_) => 'r',
        Piece::Knight(_) => 'n',
        Piece::Bishop(_) => 'b',
        Piece::Queen(_) => 'q',
        Piece::King(_) => 'k',
    }
}

/// Whether a piece is white; `Empty` is of neither colour.
pub open spec fn is_white(p: Piece) -> bool {
    match p {
        Piece::Empty => false,
        Piece::Pawn(w) | Piece::Rook(w) | Piece::Knight(w) | Piece::Bishop(w) | Piece::Queen(
            w,
        ) | Piece::King(w) => w,
    }
}

/// The glyph of a piece: its letter, upper case for white and lower case for
/// black, and `.` for an empty square.
pub open spec fn glyph_of(p: Piece) -> char {
    if is_white(p) {
        ((kind_letter(p) as u32) - 32) as char
    } else {
        kind_letter(p)
    }
}

/// The piece that a placement letter stands for: lower case is black,
/// upper case is white.
pub open spec fn piece_of_letter(c: char) -> Option<Piece> {
    if c == 'p' { Some(Piece::Pawn(false)) }
    else if c == 'P' { Some(Piece::Pawn(true)) }
    else if c == 'r' { Some(Piece::Rook(false)) }
    else if c == 'R' { Some(Piece::Rook(true)) }
    else if c == 'n' { Some(Piece::Knight(false)) }
    else if c == 'N' { Some(Piece::Knight(true)) }
    else if c == 'b' { Some(Piece::Bishop(false)) }
    else if c == 'B' { Some(Piece::Bishop(true)) }
    else if c == 'q' { Some(Piece::Queen(false)) }
    else if c == 'Q' { Some(Piece::Queen(true)) }
    else if c == 'k' { Some(Piece::King(false)) }
    else if c == 'K' { Some(Piece::King(true)) }
    else { None }
}

impl Piece {
    /// The glyph of the piece, as a board is printed.
    pub fn glyph(&self) -> (r: char)
        ensures
            r == glyph_of(*self),
    {
        match self {
            Piece::Empty => '.',
            Piece::Pawn(true) => 'P',
            Piece::Pawn(false) => 'p',
            Piece::Rook(true) => 'R',
            Piece::Rook(false) => 'r',
            Piece::Knight(true) => 'N',
            Piece::Knight(false) => 'n',
            Piece::Bishop(true) => 'B',
            Piece::Bishop(false) => 'b',
            Piece::Queen(true) => 'Q',
            Piece::Queen(false) => 'q',
            Piece::King(true) => 'K',
            Piece::King(false) => 'k',
        }
    }

    /// The piece that a placement letter stands for, if any.
    pub fn from_letter(c: char) -> (r: Option<Piece>)
        ensures
            r == piece_of_letter(c),
    {
        match c {
            'p' => Some(Piece::Pawn(false)),
            'P' => Some(Piece::Pawn(true)),
            'r' => Some(Piece::Rook(false)),
            'R' => Some(Piece::Rook(true)),
            'n' => Some(Piece::Knight(false)),
            'N' => Some(Piece::Knight(true)),
            'b' => Some(Piece::Bishop(false)),
            'B' => Some(Piece::Bishop(true)),
            'q' => Some(Piece::Queen(false)),
            'Q' => Some(Piece::Queen(true)),
            'k' => Some(Piece::King(false)),
            'K' => Some(Piece::King(true)),
            _ => None,
        }
    }
}

} // verus!
