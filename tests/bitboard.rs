use chsslib::bitboard::id;
use chsslib::{Bitboard, InvalidSquareLabel, Square};

#[test]
fn test_bitboard_bit() {
    let a = Bitboard::new(3);
    assert_eq!(a.bit(0), 1);
    assert_eq!(a.bit(1), 1);
    assert_eq!(a.bit(2), 0);
    let a = Bitboard::new(4);
    assert_eq!(a.bit(0), 0);
    assert_eq!(a.bit(1), 0);
    assert_eq!(a.bit(2), 1);

    let mut a = Bitboard::new(4);
    a.toggle_bit(2);
    assert_eq!(a.0, 0);
    a.toggle_bit(2);
    a.toggle_bit(3);
    assert_eq!(a.0, 4 + 8);
}

#[test]
fn test_bitboard_operations() {
    let a = Bitboard(1);
    let b = Bitboard(3);
    assert_eq!(a & b, Bitboard(1));
    assert_eq!(a | b, Bitboard(3));
    assert_eq!(a ^ b, Bitboard(2));
}

#[test]
fn toggle_twice_restores_every_square() {
    let start = Bitboard::new(0x8000_0000_0000_0001);
    for n in 0..64u64 {
        let mut b = start;
        b.toggle_bit(n);
        assert_ne!(b, start);
        b.toggle_bit(n);
        assert_eq!(b, start);
    }
}

#[test]
fn toggle_top_square() {
    let mut b = Bitboard::new(0);
    b.toggle_bit(63);
    assert_eq!(b.0, 1u64 << 63);
    assert_eq!(b.bit(63), 1);
    assert_eq!(b.bit(62), 0);
}

#[test]
fn index_covers_each_square_once() {
    let mut seen = [false; 64];
    for rank in 0..8u64 {
        for file in 0..8u64 {
            let s = id(rank, file);
            assert!(s < 64);
            assert!(!seen[s as usize]);
            seen[s as usize] = true;
        }
    }
    assert!(seen.iter().all(|x| *x));
    assert_eq!(id(0, 0), 0);
    assert_eq!(id(1, 0), 8);
    assert_eq!(id(7, 7), 63);
    assert_eq!(id(2, 4), 20);
}

#[test]
fn square_labels() {
    assert_eq!(Square::parse("a1"), Ok(0));
    assert_eq!(Square::parse("h1"), Ok(7));
    assert_eq!(Square::parse("a2"), Ok(8));
    assert_eq!(Square::parse("e3"), Ok(20));
    assert_eq!(Square::parse("h8"), Ok(63));
    assert_eq!(Square::parse("i1"), Err(InvalidSquareLabel));
    assert_eq!(Square::parse("a9"), Err(InvalidSquareLabel));
    assert_eq!(Square::parse("a0"), Err(InvalidSquareLabel));
    assert_eq!(Square::parse("A1"), Err(InvalidSquareLabel));
    assert_eq!(Square::parse("a"), Err(InvalidSquareLabel));
    assert_eq!(Square::parse("a10"), Err(InvalidSquareLabel));
    assert_eq!(Square::parse(""), Err(InvalidSquareLabel));
}

#[test]
fn square_listing_is_reading_order() {
    let first = Square::A8;
    let last = Square::H1;
    assert_ne!(first, last);
    assert_eq!(format!("{:?}", first), "A8");
}
