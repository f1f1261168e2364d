use vstd::prelude::*;

use crate::text::chars_of;

verus! {

/// Linear storage index of a square: rank 0 is chess rank "1", file 0 is file "a".
pub open spec fn square_index(rank: int, file: int) -> int {
    rank * 8 + file
}

/// Whether bit `n` of `v` is set.
pub open spec fn bit_set(v: u64, n: u64) -> bool {
    (v >> n) & 1 == 1
}

/// The 64 squares in board-reading order: rank "8" first, files "a" to "h"
/// within each rank. This listing order is not the storage index order.
#[derive(Clone, Copy, Debug, PartialEq, Eq, Structural)]
pub enum Square {
    A8, B8, C8, D8, E8, F8, G8, H8,
    A7, B7, C7, D7, E7, F7, G7, H7,
    A6, B6, C6, D6, E6, F6, G6, H6,
    A5, B5, C5, D5, E5, F5, G5, H5,
    A4, B4, C4, D4, E4, F4, G4, H4,
    A3, B3, C3, D3, E3, F3, G3, H3,
    A2, B2, C2, D2, E2, F2, G2, H2,
    A1, B1, C1, D1, E1, F1, G1, H1,
}

/// The storage index named by a two-character label: a file letter `a` to
/// `h`, then a rank digit `1` to `8`.
pub open spec fn label_square(s: Seq<char>) -> Option<u64> {
    if s.len() == 2 && 'a' <= s[0] && s[0] <= 'h' && '1' <= s[1] && s[1] <= '8' {
        Some(square_index(s[1] as int - '1' as int, s[0] as int - 'a' as int) as u64)
    } else {
        None
    }
}

/// A square label that names no square.
#[derive(Clone, Copy, Debug, PartialEq, Eq, Structural)]
pub struct InvalidSquareLabel;

impl Square {
    /// The storage index of the square a label names, such as 8 for `a2`.
    pub fn parse(label: &str) -> (r: Result<u64, InvalidSquareLabel>)
        ensures
            r == (match label_square(label@) {
                Some(s) => Ok(s),
                None => Err(InvalidSquareLabel),
            }),
    {
        let chars = chars_of(label);
        match parse_label(&chars) {
            Some(s) => Ok(s),
            None => Err(InvalidSquareLabel),
        }
    }
}

/// The storage index of the square a label names, as characters.
pub fn parse_label(s: &Vec<char>) -> (r: Option<u64>)
    ensures
        r == label_square(s@),
        r matches Some(n) ==> n < 64,
{
    if s.len() != 2 {
        return None;
    }
    let f = s[0];
    let k = s[1];
    if 'a' <= f && f <= 'h' && '1' <= k && k <= '8' {
        let file = (f as u32 - 'a' as u32) as u64;
        let rank = (k as u32 - '1' as u32) as u64;
        Some(id(rank, file))
    } else {
        None
    }
}

/// Storage index of the square at `rank` and `file`.
pub fn id(rank: u64, file: u64) -> (r: u64)
    requires
        rank < 8,
        file < 8,
    ensures
        r == square_index(rank as int, file as int),
        r < 64,
{
    rank * 8 + file
}

/// A set of squares: bit `n` stands for the square of storage index `n`.
#[derive(Clone, Copy, Debug, PartialEq, Eq, Structural)]
pub struct Bitboard(pub u64);

impl Bitboard {
    /// Whether square `n` is in the set.
    pub open spec fn has(self, n: u64) -> bool {
        bit_set(self.0, n)
    }

    /// The set with the membership of square `n` flipped.
    pub open spec fn toggled(self, n: u64) -> Bitboard {
        Bitboard(self.0 ^ (1u64 << n))
    }

    pub fn new(v: u64) -> (r: Self)
        ensures
            r.0 == v,
    {
        Bitboard(v)
    }

    /// 1 when square `n` is in the set, else 0.
    pub fn bit(&self, n: u64) -> (r: u64)
        requires
            n < 64,
        ensures
            r == (if self.has(n) { 1u64 } else { 0u64 }),
    {
        let v = self.0;
        assert(((v >> n) & 1 == 1) || ((v >> n) & 1 == 0)) by (bit_vector);
        (self.0 >> n) & 1
    }

    /// Flips the membership of square `n`, leaving every other square as it was.
    pub fn toggle_bit(&mut self, n: u64)
        requires
            n < 64,
        ensures
            *final(self) == old(self).toggled(n),
            final(self).has(n) == !old(self).has(n),
            forall|m: u64| m < 64 && m != n ==> #[trigger] final(self).has(m) == old(self).has(m),
    {
        proof {
            lemma_toggle_flips(self.0, n);
        }
        self.0 = self.0 ^ (1u64 << n);
    }
}

/// Flipping bit `n` changes bit `n` and no other.
pub proof fn lemma_toggle_flips(v: u64, n: u64)
    requires
        n < 64,
    ensures
        bit_set(v ^ (1u64 << n), n) == !bit_set(v, n),
        forall|m: u64| m < 64 && m != n ==> #[trigger] bit_set(v ^ (1u64 << n), m) == bit_set(v, m),
{
    assert(((v ^ (1u64 << n)) >> n) & 1 == 1 <==> !((v >> n) & 1 == 1)) by (bit_vector)
        requires
            n < 64,
    ;
    assert forall|m: u64| m < 64 && m != n implies #[trigger] bit_set(v ^ (1u64 << n), m) == bit_set(v, m) by {
        assert(((v ^ (1u64 << n)) >> m) & 1 == 1 <==> (v >> m) & 1 == 1) by (bit_vector)
            requires
                n < 64,
                m < 64,
                m != n,
        ;
    }
}

impl vstd::std_specs::ops::BitAndSpecImpl for Bitboard {
    open spec fn obeys_bitand_spec() -> bool {
        true
    }

    open spec fn bitand_req(self, rhs: Bitboard) -> bool {
        true
    }

    open spec fn bitand_spec(self, rhs: Bitboard) -> Bitboard {
        Bitboard(self.0 & rhs.0)
    }
}

impl std::ops::BitAnd for Bitboard {
    type Output = Self;

    /// The squares in both sets.
    fn bitand(self, rhs: Self) -> (r: Self)
        ensures
            r.0 == self.0 & rhs.0,
    {
        Bitboard(self.0 & rhs.0)
    }
}

impl vstd::std_specs::ops::BitOrSpecImpl for Bitboard {
    open spec fn obeys_bitor_spec() -> bool {
        true
    }

    open spec fn bitor_req(self, rhs: Bitboard) -> bool {
        true
    }

    open spec fn bitor_spec(self, rhs: Bitboard) -> Bitboard {
        Bitboard(self.0 | rhs.0)
    }
}

impl std::ops::BitOr for Bitboard {
    type Output = Self;

    /// The squares in either set.
    fn bitor(self, rhs: Self) -> (r: Self)
        ensures
            r.0 == self.0 | rhs.0,
    {
        Bitboard(self.0 | rhs.0)
    }
}

impl vstd::std_specs::ops::BitXorSpecImpl for Bitboard {
    open spec fn obeys_bitxor_spec() -> bool {
        true
    }

    open spec fn bitxor_req(self, rhs: Bitboard) -> bool {
        true
    }

    open spec fn bitxor_spec(self, rhs: Bitboard) -> Bitboard {
        Bitboard(self.0 ^ rhs.0)
    }
}

impl std::ops::BitXor for Bitboard {
    type Output = Self;

    /// The squares in exactly one of the sets.
    fn bitxor(self, rhs: Self) -> (r: Self)
        ensures
            r.0 == self.0 ^ rhs.0,
    {
        Bitboard(self.0 ^ rhs.0)
    }
}

} // verus!
