use chsslib::{Bitboard, Board, Castling, FenError, Piece};

const START: &str = "rnbqkbnr/pppppppp/8/8/8/8/PPPPPPPP/RNBQKBNR w KQkq - 0 1";

fn glyph_rows(board: &Board) -> Vec<String> {
    board.grid().iter().map(|row| row.iter().collect()).collect()
}

#[test]
fn test_parse() {
    let start = "rnbqkbnr/pppppppp/8/8/8/8/PPPPPPPP/RNBQKBNR w KQkq - 0 1".to_string();
    let board = Board::parse(&start);
    match board {
        Ok(board) => {
            assert_eq!(board.whites, Bitboard::new(65535));
            assert_eq!(board.blacks, Bitboard::new(18446462598732840960));
            assert_eq!(board.pawns, Bitboard::new(71776119061282560));
            assert_eq!(board.rooks, Bitboard::new(9295429630892703873));
            assert_eq!(board.knights, Bitboard::new(4755801206503243842));
            assert_eq!(board.bishops, Bitboard::new(2594073385365405732));
            assert_eq!(board.queens, Bitboard::new(576460752303423496));
            assert_eq!(board.kings, Bitboard::new(1152921504606846992));
        }
        Err(_) => assert!(false),
    }
}

#[test]
fn start_position_state() {
    let board = Board::parse(START).unwrap();
    assert_eq!(board.whites.0, 0x0000_0000_0000_FFFF);
    assert_eq!(board.blacks.0, 0xFFFF_0000_0000_0000);
    assert!(board.castling.can_white_king());
    assert!(board.castling.can_white_queen());
    assert!(board.castling.can_black_king());
    assert!(board.castling.can_black_queen());
    assert_eq!(board.en_passant, Bitboard::new(0));
    assert_eq!(board.halfmove, 0);
    assert_eq!(board.fullmove, 1);
    assert!(board.white_active);
    assert_eq!(board.get_piece(0, 4), Piece::King(true));
    assert_eq!(board.get_piece(7, 3), Piece::Queen(false));
    assert_eq!(board.get_piece(1, 0), Piece::Pawn(true));
    assert_eq!(board.get_piece(6, 7), Piece::Pawn(false));
    assert_eq!(board.get_piece(3, 3), Piece::Empty);
}

#[test]
fn parse_errors() {
    assert_eq!(
        Board::parse("8/8/8/8/8/8/8/8 w - - 0"),
        Err(FenError::WrongFieldCount)
    );
    assert_eq!(
        Board::parse("8/8/8/8/8/8/8/8 w - - 0 1 x"),
        Err(FenError::WrongFieldCount)
    );
    assert_eq!(
        Board::parse("8/8/8/8/8/8/8/8  w - - 0 1"),
        Err(FenError::WrongFieldCount)
    );
    assert_eq!(Board::parse(""), Err(FenError::WrongFieldCount));
    assert_eq!(
        Board::parse("8/8/8/8/8/8/8 w - - 0 1"),
        Err(FenError::WrongRankCount)
    );
    assert_eq!(
        Board::parse("8/8/8/8/8/8/8/8/8 w - - 0 1"),
        Err(FenError::WrongRankCount)
    );
    assert_eq!(
        Board::parse("8/8/8/3x4/8/8/8/8 w - - 0 1"),
        Err(FenError::InvalidPlacementChar('x'))
    );
    assert_eq!(
        Board::parse("8/8/8/9/8/8/8/8 w - - 0 1"),
        Err(FenError::InvalidPlacementChar('9'))
    );
    assert_eq!(
        Board::parse("8/8/8/08/8/8/8/8 w - - 0 1"),
        Err(FenError::InvalidPlacementChar('0'))
    );
    assert_eq!(
        Board::parse("8/8/8/8/8/8/8/8 x - - 0 1"),
        Err(FenError::InvalidActiveColor)
    );
    assert_eq!(
        Board::parse("8/8/8/8/8/8/8/8 white - - 0 1"),
        Err(FenError::InvalidActiveColor)
    );
    assert_eq!(
        Board::parse("8/8/8/8/8/8/8/8 w - z9 0 1"),
        Err(FenError::InvalidEnPassant)
    );
    assert_eq!(
        Board::parse("8/8/8/8/8/8/8/8 w - e9 0 1"),
        Err(FenError::InvalidEnPassant)
    );
    assert_eq!(
        Board::parse("8/8/8/8/8/8/8/8 w - - a 1"),
        Err(FenError::InvalidHalfmove)
    );
    assert_eq!(
        Board::parse("8/8/8/8/8/8/8/8 w - - 18446744073709551616 1"),
        Err(FenError::InvalidHalfmove)
    );
    assert_eq!(
        Board::parse("8/8/8/8/8/8/8/8 w - - 0 -1"),
        Err(FenError::InvalidFullmove)
    );
}

#[test]
fn first_error_wins() {
    assert_eq!(
        Board::parse("8/8/8/x/8/8/8 w - - 0 1"),
        Err(FenError::WrongRankCount)
    );
    assert_eq!(
        Board::parse("8/8/8/x7/8/8/8/8 x - z9 a b"),
        Err(FenError::InvalidPlacementChar('x'))
    );
    assert_eq!(
        Board::parse("8/8/8/8/8/8/8/8 x - z9 a b"),
        Err(FenError::InvalidActiveColor)
    );
    assert_eq!(
        Board::parse("8/8/8/8/8/8/8/8 b - z9 a b"),
        Err(FenError::InvalidEnPassant)
    );
}

#[test]
fn other_fields() {
    let board = Board::parse("4k3/8/8/8/4P3/8/8/4K3 b Kq e3 12 34").unwrap();
    assert!(!board.white_active);
    assert!(board.castling.can_white_king());
    assert!(!board.castling.can_white_queen());
    assert!(!board.castling.can_black_king());
    assert!(board.castling.can_black_queen());
    assert_eq!(board.en_passant, Bitboard::new(1 << 20));
    assert_eq!(board.halfmove, 12);
    assert_eq!(board.fullmove, 34);
    assert_eq!(board.get_piece(3, 4), Piece::Pawn(true));
    assert_eq!(board.get_piece(7, 4), Piece::King(false));
    assert_eq!(board.get_piece(0, 4), Piece::King(true));

    let board = Board::parse("8/8/8/8/8/8/8/8 w xKx - 18446744073709551615 0").unwrap();
    assert!(board.castling.can_white_king());
    assert_eq!(board.castling, Castling::new(1));
    assert_eq!(board.halfmove, u64::MAX);
    assert_eq!(board.fullmove, 0);
}

#[test]
fn empty_board_has_no_pieces() {
    let board = Board::new();
    for rank in 0..8u64 {
        for file in 0..8u64 {
            assert_eq!(board.get_piece(rank, file), Piece::Empty);
        }
    }
    assert!(board.white_active);
    assert_eq!(board.halfmove, 0);
    assert_eq!(board.fullmove, 1);
}

#[test]
fn grid_marks_occupied_squares() {
    let board = Board::parse(START).unwrap();
    let rows = glyph_rows(&board);
    assert_eq!(
        rows,
        vec![
            "rnbqkbnr", "pppppppp", "........", "........", "........", "........", "PPPPPPPP",
            "RNBQKBNR",
        ]
    );
    let occupied = board.whites | board.blacks;
    let grid = board.grid();
    for rank in 0..8u64 {
        for file in 0..8u64 {
            let cell = grid[(7 - rank) as usize][file as usize];
            assert_eq!(cell != '.', occupied.bit(rank * 8 + file) == 1);
        }
    }
}

#[test]
fn grid_of_sparse_position() {
    let board = Board::parse("8/8/8/3q4/8/8/5N2/8 w - - 0 1").unwrap();
    let rows = glyph_rows(&board);
    assert_eq!(rows[3], "...q....");
    assert_eq!(rows[6], ".....N..");
    assert_eq!(rows[0], "........");
}

#[test]
fn glyphs() {
    assert_eq!(Piece::Empty.glyph(), '.');
    assert_eq!(Piece::Pawn(true).glyph(), 'P');
    assert_eq!(Piece::Rook(false).glyph(), 'r');
    assert_eq!(Piece::Knight(true).glyph(), 'N');
    assert_eq!(Piece::Bishop(false).glyph(), 'b');
    assert_eq!(Piece::Queen(true).glyph(), 'Q');
    assert_eq!(Piece::King(false).glyph(), 'k');
    assert_eq!(Piece::from_letter('K'), Some(Piece::King(true)));
    assert_eq!(Piece::from_letter('x'), None);
}

#[test]
fn castling_flags() {
    let mut c = Castling::new(0);
    assert!(!c.can_white_king() && !c.can_white_queen());
    assert!(!c.can_black_king() && !c.can_black_queen());
    c.set_white_queen();
    assert_eq!(c.0, 2);
    assert!(c.can_white_queen() && !c.can_white_king());
    c.set_black_king();
    assert_eq!(c.0, 6);
    c.set_white_king();
    c.set_black_queen();
    assert_eq!(c.0, 15);
    c.set_black_queen();
    assert_eq!(c.0, 15);
}

#[test]
fn overlong_rank_runs_on() {
    // nine squares in the top rank: the ninth wraps round to a1
    let board = Board::parse("8p/8/8/8/8/8/8/8 w - - 0 1").unwrap();
    assert_eq!(board.get_piece(0, 0), Piece::Pawn(false));
    assert_eq!(board.blacks, Bitboard::new(1));
    // a letter placed twice on one square toggles it off again
    let board = Board::parse("r7/8/8/8/8/8/8/8888888r w - - 0 1").unwrap();
    assert_eq!(board.rooks, Bitboard::new(0));
    assert_eq!(board.blacks, Bitboard::new(0));
}

#[test]
fn render_start_position() {
    let board = Board::parse(START).unwrap();
    let expected = [
        "Board",
        "8 r n b q k b n r ",
        "7 p p p p p p p p ",
        "6 . . . . . . . . ",
        "5 . . . . . . . . ",
        "4 . . . . . . . . ",
        "3 . . . . . . . . ",
        "2 P P P P P P P P ",
        "1 R N B Q K B N R ",
        "  a b c d e f g h",
    ]
    .join("\n");
    assert_eq!(board.render(), expected);
}

#[test]
fn render_bitboard() {
    let expected = [
        "Bitboard(9223372036854775809)",
        "8 0 0 0 0 0 0 0 1 ",
        "7 0 0 0 0 0 0 0 0 ",
        "6 0 0 0 0 0 0 0 0 ",
        "5 0 0 0 0 0 0 0 0 ",
        "4 0 0 0 0 0 0 0 0 ",
        "3 0 0 0 0 0 0 0 0 ",
        "2 0 0 0 0 0 0 0 0 ",
        "1 1 0 0 0 0 0 0 0 ",
        "  a b c d e f g h",
    ]
    .join("\n");
    assert_eq!(Bitboard::new(0x8000_0000_0000_0001).render(), expected);
    assert!(Bitboard::new(0).render().starts_with("Bitboard(0)\n8 0 0"));
    let grid = Bitboard::new(1 << 20).grid();
    assert_eq!(grid[5][4], '1');
    assert_eq!(grid[4][4], '0');
}

#[test]
fn clashing_placements_leave_colour_without_kind() {
    // the eighth rank runs on to a7, where the seventh rank then places a
    // black pawn: the pawn bit toggles off and both colour bits stay set
    let board = Board::parse("8888888P/p7/8/8/8/8/8/8 w - - 0 1").unwrap();
    assert_eq!(board.pawns, Bitboard::new(0));
    assert_eq!(board.whites.bit(48), 1);
    assert_eq!(board.blacks.bit(48), 1);
    assert_eq!(board.get_piece(6, 0), Piece::Empty);
    assert_eq!(board.grid()[1][0], '.');
}

#[test]
fn black_wins_ties_only_without_white() {
    let mut board = Board::new();
    board.toggle_piece(Piece::Rook(true), 9);
    board.toggle_piece(Piece::Queen(false), 9);
    assert_eq!(board.get_piece(1, 1), Piece::Rook(true));
    board.toggle_piece(Piece::Rook(true), 9);
    assert_eq!(board.get_piece(1, 1), Piece::Queen(false));
}
