use vstd::prelude::*;

use crate::bitboard::{label_square, parse_label, Bitboard};
use crate::board::{empty_board, lemma_set_flag, with_toggled, Board, Castling};
use crate::piece::{piece_of_letter, Piece};
use crate::text::{
    chars_of, contains_char, decimal_u64, digit_value, parse_u64, split, split_chars,
};

verus! {

/// Why a FEN string was refused.
#[derive(Clone, Copy, Debug, PartialEq, Eq, Structural)]
pub enum FenError {
    /// Not exactly six non-empty space-separated fields.
    WrongFieldCount,
    /// The placement field does not hold exactly eight ranks.
    WrongRankCount,
    /// A placement character that is neither a digit `1` to `8` nor a piece letter.
    InvalidPlacementChar(char),
    /// The active colour is neither `w` nor `b`.
    InvalidActiveColor,
    /// The en-passant field is neither `-` nor a square label.
    InvalidEnPassant,
    /// The halfmove clock is not a non-negative integer.
    InvalidHalfmove,
    /// The fullmove number is not a non-negative integer.
    InvalidFullmove,
}

/// A digit that stands for a run of empty squares.
pub open spec fn is_gap_digit(c: char) -> bool {
    '1' <= c && c <= '8'
}

/// The square that a placement at storage rank `rank` and running file
/// counter `file` lands on. A counter past file "h" runs on into the ranks
/// above, and past the last square wraps round to the first.
pub open spec fn placement_square(rank: u64, file: u64) -> u64 {
    ((rank * 8 + file) % 64) as u64
}

/// Reads the characters `line` of one rank into `b`, the file counter
/// standing at `file`: a gap digit moves the counter on, a piece letter
/// toggles its piece on the counter's square and moves on by one, and any
/// other character is handed back as the error.
pub open spec fn scan_rank(b: Board, line: Seq<char>, rank: u64, file: u64) -> Result<Board, char>
    decreases line.len(),
{
    if line.len() == 0 {
        Ok(b)
    } else {
        let c = line[0];
        if is_gap_digit(c) {
            scan_rank(b, line.drop_first(), rank, ((file + digit_value(c)) % 64) as u64)
        } else {
            match piece_of_letter(c) {
                Some(p) => scan_rank(
                    with_toggled(b, p, placement_square(rank, file)),
                    line.drop_first(),
                    rank,
                    ((file + 1) % 64) as u64,
                ),
                None => Err(c),
            }
        }
    }
}

/// Reads the ranks `ranks` into `b`, the first of them being rank number
/// `top` counted from the top of the board (storage rank `7 - top`).
pub open spec fn scan_ranks(b: Board, ranks: Seq<Seq<char>>, top: int) -> Result<Board, char>
    decreases ranks.len(),
{
    if ranks.len() == 0 {
        Ok(b)
    } else {
        match scan_rank(b, ranks[0], (7 - top) as u64, 0) {
            Ok(next) => scan_ranks(next, ranks.drop_first(), top + 1),
            Err(c) => Err(c),
        }
    }
}

/// The castling rights of a castling field: each of `k`, `K`, `q`, `Q` that
/// occurs anywhere in it sets its flag.
pub open spec fn castling_of(f: Seq<char>) -> Castling {
    let c0: u8 = 0;
    let c1: u8 = if f.contains('k') { c0 | 4 } else { c0 };
    let c2: u8 = if f.contains('K') { c1 | 1 } else { c1 };
    let c3: u8 = if f.contains('q') { c2 | 8 } else { c2 };
    let c4: u8 = if f.contains('Q') { c3 | 2 } else { c3 };
    Castling(c4)
}

/// A castling field grants exactly the rights whose letters occur in it.
pub proof fn lemma_castling_of_flags(f: Seq<char>)
    ensures
        castling_of(f).white_king() == f.contains('K'),
        castling_of(f).white_queen() == f.contains('Q'),
        castling_of(f).black_king() == f.contains('k'),
        castling_of(f).black_queen() == f.contains('q'),
{
    let z: u8 = 0;
    assert(z & 1 == 0 && z & 2 == 0 && z & 4 == 0 && z & 8 == 0) by (bit_vector)
        requires
            z == 0,
    ;
    lemma_set_flag(z);
    let c1: u8 = if f.contains('k') { z | 4 } else { z };
    lemma_set_flag(c1);
    let c2: u8 = if f.contains('K') { c1 | 1 } else { c1 };
    lemma_set_flag(c2);
    let c3: u8 = if f.contains('q') { c2 | 8 } else { c2 };
    lemma_set_flag(c3);
}

/// The en-passant target of an en-passant field that is `-` or a square label.
pub open spec fn en_passant_of(f: Seq<char>) -> Bitboard {
    if f == seq!['-'] {
        Bitboard(0)
    } else {
        Bitboard(0).toggled(label_square(f)->0)
    }
}

/// Exactly six fields, none of them empty.
pub open spec fn fields_ok(fields: Seq<Seq<char>>) -> bool {
    fields.len() == 6 && forall|i: int| 0 <= i < 6 ==> #[trigger] fields[i].len() > 0
}

/// The position that a FEN string describes, or the first rule it breaks,
/// tried in this order: field count, rank count, placement characters,
/// active colour, en-passant target, halfmove clock, fullmove number.
pub open spec fn fen_board(s: Seq<char>) -> Result<Board, FenError> {
    let fields = split(s, ' ');
    if !fields_ok(fields) {
        Err(FenError::WrongFieldCount)
    } else if split(fields[0], '/').len() != 8 {
        Err(FenError::WrongRankCount)
    } else {
        match scan_ranks(empty_board(), split(fields[0], '/'), 0) {
            Err(c) => Err(FenError::InvalidPlacementChar(c)),
            Ok(placed) => if fields[1] != seq!['w'] && fields[1] != seq!['b'] {
                Err(FenError::InvalidActiveColor)
            } else if fields[3] != seq!['-'] && label_square(fields[3]) is None {
                Err(FenError::InvalidEnPassant)
            } else if decimal_u64(fields[4]) is None {
                Err(FenError::InvalidHalfmove)
            } else if decimal_u64(fields[5]) is None {
                Err(FenError::InvalidFullmove)
            } else {
                Ok(
                    Board {
                        white_active: fields[1] == seq!['w'],
                        castling: castling_of(fields[2]),
                        en_passant: en_passant_of(fields[3]),
                        halfmove: decimal_u64(fields[4])->0,
                        fullmove: decimal_u64(fields[5])->0,
                        ..placed
                    },
                )
            },
        }
    }
}

/// Reads one rank of the placement field into `b`, at storage rank `rank`.
fn scan_rank_into(b: &mut Board, line: &Vec<char>, rank: u64) -> (r: Result<(), char>)
    requires
        rank < 8,
    ensures
        match scan_rank(*old(b), line@, rank, 0) {
            Ok(nb) => r is Ok && *final(b) == nb,
            Err(c) => r == Err::<(), char>(c),
        },
{
    let mut file: u64 = 0;
    let mut i: usize = 0;
    assert(line@.skip(0) =~= line@);
    while i < line.len()
        invariant
            rank < 8,
            file < 64,
            i <= line@.len(),
            scan_rank(*old(b), line@, rank, 0) == scan_rank(*b, line@.skip(i as int), rank, file),
        decreases line@.len() - i,
    {
        let c = line[i];
        assert(line@.skip(i as int)[0] == c);
        assert(line@.skip(i as int).drop_first() =~= line@.skip(i + 1));
        if '1' <= c && c <= '8' {
            file = (file + (c as u32 - '0' as u32) as u64) % 64;
        } else {
            match Piece::from_letter(c) {
                Some(p) => {
                    b.toggle_piece(p, (rank * 8 + file) % 64);
                    file = (file + 1) % 64;
                },
                None => {
                    return Err(c);
                },
            }
        }
        i = i + 1;
    }
    Ok(())
}

/// Whether `f` is the one-character field `c`.
fn is_single(f: &Vec<char>, c: char) -> (r: bool)
    ensures
        r == (f@ == seq![c]),
{
    if f.len() == 1 && f[0] == c {
        assert(f@ =~= seq![c]);
        true
    } else {
        false
    }
}

impl Board {
    /// Reads a position from its FEN string.
    pub fn parse(fen: &str) -> (r: Result<Board, FenError>)
        ensures
            r == fen_board(fen@),
    {
        let chars = chars_of(fen);
        let parts = split_chars(&chars, ' ');
        let ghost fields = split(fen@, ' ');
        if parts.len() != 6 {
            return Err(FenError::WrongFieldCount);
        }
        let mut k: usize = 0;
        while k < 6
            invariant
                k <= 6,
                fields == split(fen@, ' '),
                parts@.len() == 6,
                fields.len() == 6,
                forall|j: int| 0 <= j < 6 ==> #[trigger] parts@[j]@ == fields[j],
                forall|j: int| 0 <= j < k ==> #[trigger] fields[j].len() > 0,
            decreases 6 - k,
        {
            if parts[k].len() == 0 {
                assert(!fields_ok(fields));
                return Err(FenError::WrongFieldCount);
            }
            k = k + 1;
        }
        assert(fields_ok(fields));
        let ranks = split_chars(&parts[0], '/');
        let ghost rank_seq = split(fields[0], '/');
        if ranks.len() != 8 {
            return Err(FenError::WrongRankCount);
        }
        let mut board = Board::new();
        let mut r: usize = 0;
        assert(rank_seq.skip(0) =~= rank_seq);
        while r < 8
            invariant
                r <= 8,
                fields == split(fen@, ' '),
                fields_ok(fields),
                parts@.len() == 6,
                forall|j: int| 0 <= j < 6 ==> #[trigger] parts@[j]@ == fields[j],
                rank_seq == split(fields[0], '/'),
                ranks@.len() == 8,
                rank_seq.len() == 8,
                forall|j: int| 0 <= j < 8 ==> #[trigger] ranks@[j]@ == rank_seq[j],
                scan_ranks(empty_board(), rank_seq, 0) == scan_ranks(
                    board,
                    rank_seq.skip(r as int),
                    r as int,
                ),
            decreases 8 - r,
        {
            assert(rank_seq.skip(r as int)[0] == rank_seq[r as int]);
            assert(rank_seq.skip(r as int).drop_first() =~= rank_seq.skip(r + 1));
            match scan_rank_into(&mut board, &ranks[r], (7 - r) as u64) {
                Ok(()) => {},
                Err(c) => {
                    return Err(FenError::InvalidPlacementChar(c));
                },
            }
            r = r + 1;
        }
        assert(rank_seq.skip(8) =~= Seq::<Seq<char>>::empty());
        if is_single(&parts[1], 'w') {
            board.white_active = true;
        } else if is_single(&parts[1], 'b') {
            board.white_active = false;
        } else {
            return Err(FenError::InvalidActiveColor);
        }
        let mut castling = Castling::new(0);
        if contains_char(&parts[2], 'k') {
            castling.set_black_king();
        }
        if contains_char(&parts[2], 'K') {
            castling.set_white_king();
        }
        if contains_char(&parts[2], 'q') {
            castling.set_black_queen();
        }
        if contains_char(&parts[2], 'Q') {
            castling.set_white_queen();
        }
        board.castling = castling;
        let mut en_passant = Bitboard::new(0);
        if !is_single(&parts[3], '-') {
            match parse_label(&parts[3]) {
                Some(s) => en_passant.toggle_bit(s),
                None => {
                    return Err(FenError::InvalidEnPassant);
                },
            }
        }
        board.en_passant = en_passant;
        match parse_u64(&parts[4]) {
            Some(v) => {
                board.halfmove = v;
            },
            None => {
                return Err(FenError::InvalidHalfmove);
            },
        }
        match parse_u64(&parts[5]) {
            Some(v) => {
                board.fullmove = v;
            },
            None => {
                return Err(FenError::InvalidFullmove);
            },
        }
        Ok(board)
    }
}

} // verus!
