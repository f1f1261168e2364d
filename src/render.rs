use vstd::prelude::*;

use crate::bitboard::{bit_set, square_index, Bitboard};
use crate::board::{piece_on, Board};
use crate::piece::glyph_of;

verus! {

/// The character of a decimal digit `d`.
pub open spec fn digit_char(d: nat) -> char {
    (48 + d) as char
}

/// The decimal digits of `n`, most significant first, with no leading zero.
pub open spec fn decimal_digits(n: nat) -> Seq<char>
    decreases n,
{
    if n < 10 {
        seq![digit_char(n)]
    } else {
        decimal_digits(n / 10).push(digit_char(n % 10))
    }
}

/// Each cell followed by a space.
pub open spec fn spaced(cells: Seq<char>) -> Seq<char>
    decreases cells.len(),
{
    if cells.len() == 0 {
        Seq::empty()
    } else {
        spaced(cells.drop_last()) + seq![cells.last(), ' ']
    }
}

/// The printed lines of a board's rows, the first row being rank "8": each
/// line is the rank number and a space, the spaced cells, and a newline.
pub open spec fn grid_lines(rows: Seq<Seq<char>>) -> Seq<char>
    decreases rows.len(),
{
    if rows.len() == 0 {
        Seq::empty()
    } else {
        let i = rows.len() - 1;
        grid_lines(rows.drop_last()) + seq![digit_char((8 - i) as nat), ' '] + spaced(rows.last())
            + seq!['\n']
    }
}

/// The line of file letters under a printed board.
pub open spec fn file_line() -> Seq<char> {
    seq![' ', ' ', 'a', ' ', 'b', ' ', 'c', ' ', 'd', ' ', 'e', ' ', 'f', ' ', 'g', ' ', 'h']
}

/// The glyphs of a position, row `i` being storage rank `7 - i`.
pub open spec fn board_cells(b: Board) -> Seq<Seq<char>> {
    Seq::new(8, |i: int| Seq::new(8, |f: int| glyph_of(piece_on(b, square_index(7 - i, f) as u64))))
}

/// The bits of a set as `1` and `0`, row `i` being storage rank `7 - i`.
pub open spec fn bit_cells(m: Bitboard) -> Seq<Seq<char>> {
    Seq::new(
        8,
        |i: int|
            Seq::new(
                8,
                |f: int| if bit_set(m.0, square_index(7 - i, f) as u64) { '1' } else { '0' },
            ),
    )
}

/// A position as printed: a title line, the grid, and the file letters.
pub open spec fn board_text(b: Board) -> Seq<char> {
    seq!['B', 'o', 'a', 'r', 'd', '\n'] + grid_lines(board_cells(b)) + file_line()
}

/// A set of squares as printed: its value in decimal, the grid of its bits,
/// and the file letters.
pub open spec fn bitboard_text(m: Bitboard) -> Seq<char> {
    seq!['B', 'i', 't', 'b', 'o', 'a', 'r', 'd', '('] + decimal_digits(m.0 as nat) + seq![')', '\n']
        + grid_lines(bit_cells(m)) + file_line()
}

/// Relies on `String`'s `FromIterator<&char>`: the string of the characters
/// in order.
#[verifier::external_body]
fn string_of(chars: &Vec<char>) -> (r: String)
    ensures
        r@ == chars@,
{
    chars.iter().collect()
}

fn digit_of(d: u64) -> (r: char)
    requires
        d < 10,
    ensures
        r == digit_char(d as nat),
{
    match d {
        0 => '0',
        1 => '1',
        2 => '2',
        3 => '3',
        4 => '4',
        5 => '5',
        6 => '6',
        7 => '7',
        8 => '8',
        _ => '9',
    }
}

/// Appends the decimal digits of `n`.
fn push_decimal(out: &mut Vec<char>, n: u64)
    ensures
        final(out)@ == old(out)@ + decimal_digits(n as nat),
    decreases n,
{
    if n < 10 {
        out.push(digit_of(n));
        assert(final(out)@ =~= old(out)@ + decimal_digits(n as nat));
    } else {
        push_decimal(out, n / 10);
        out.push(digit_of(n % 10));
        assert(final(out)@ =~= old(out)@ + decimal_digits(n as nat));
    }
}

/// Appends the printed lines of eight rows of eight cells.
fn push_grid(out: &mut Vec<char>, rows: &Vec<Vec<char>>, cells: Ghost<Seq<Seq<char>>>)
    requires
        rows@.len() == 8,
        cells@.len() == 8,
        forall|i: int| 0 <= i < 8 ==> (#[trigger] rows@[i])@ == cells@[i],
        forall|i: int| 0 <= i < 8 ==> (#[trigger] cells@[i]).len() == 8,
    ensures
        final(out)@ == old(out)@ + grid_lines(cells@),
{
    let mut i: usize = 0;
    while i < 8
        invariant
            i <= 8,
            rows@.len() == 8,
            cells@.len() == 8,
            forall|j: int| 0 <= j < 8 ==> (#[trigger] rows@[j])@ == cells@[j],
            forall|j: int| 0 <= j < 8 ==> (#[trigger] cells@[j]).len() == 8,
            out@ == old(out)@ + grid_lines(cells@.take(i as int)),
        decreases 8 - i,
    {
        let ghost before = out@;
        out.push(digit_of((8 - i) as u64));
        out.push(' ');
        let row = &rows[i];
        let mut f: usize = 0;
        while f < row.len()
            invariant
                f <= row@.len(),
                out@ == before + seq![digit_char((8 - i) as nat), ' '] + spaced(row@.take(f as int)),
            decreases row@.len() - f,
        {
            out.push(row[f]);
            out.push(' ');
            assert(row@.take(f + 1).drop_last() =~= row@.take(f as int));
            f = f + 1;
            assert(out@ =~= before + seq![digit_char((8 - i) as nat), ' '] + spaced(
                row@.take(f as int),
            ));
        }
        out.push('\n');
        assert(row@.take(f as int) =~= row@);
        assert(cells@.take(i + 1).drop_last() =~= cells@.take(i as int));
        i = i + 1;
        assert(out@ =~= old(out)@ + grid_lines(cells@.take(i as int)));
    }
    assert(cells@.take(8) =~= cells@);
}

fn push_file_line(out: &mut Vec<char>)
    ensures
        final(out)@ == old(out)@ + file_line(),
{
    out.push(' ');
    out.push(' ');
    out.push('a');
    out.push(' ');
    out.push('b');
    out.push(' ');
    out.push('c');
    out.push(' ');
    out.push('d');
    out.push(' ');
    out.push('e');
    out.push(' ');
    out.push('f');
    out.push(' ');
    out.push('g');
    out.push(' ');
    out.push('h');
    assert(final(out)@ =~= old(out)@ + file_line());
}

impl Board {
    /// The position as printed: `Board`, then one line per rank from "8" down
    /// to "1" (rank number, then each glyph followed by a space), then the
    /// file letters.
    pub fn render(&self) -> (r: String)
        ensures
            r@ == board_text(*self),
    {
        let rows = self.grid();
        let mut out: Vec<char> = Vec::new();
        out.push('B');
        out.push('o');
        out.push('a');
        out.push('r');
        out.push('d');
        out.push('\n');
        let ghost cells = board_cells(*self);
        assert forall|i: int| 0 <= i < 8 implies (#[trigger] rows@[i])@ == cells[i] by {
            assert(rows@[i]@ =~= cells[i]);
        }
        push_grid(&mut out, &rows, Ghost(cells));
        push_file_line(&mut out);
        assert(out@ =~= board_text(*self));
        string_of(&out)
    }
}

impl Bitboard {
    /// The bits of this set as eight rows of `1` and `0`, the first row being
    /// rank "8" and the first column file "a".
    pub fn grid(&self) -> (r: Vec<Vec<char>>)
        ensures
            r@.len() == 8,
            forall|i: int| 0 <= i < 8 ==> (#[trigger] r@[i])@ == bit_cells(*self)[i],
    {
        let mut rows: Vec<Vec<char>> = Vec::new();
        let mut i: u64 = 0;
        while i < 8
            invariant
                i <= 8,
                rows@.len() == i,
                forall|j: int| 0 <= j < i ==> (#[trigger] rows@[j])@ == bit_cells(*self)[j],
            decreases 8 - i,
        {
            let mut row: Vec<char> = Vec::new();
            let mut f: u64 = 0;
            while f < 8
                invariant
                    i < 8,
                    f <= 8,
                    row@ == bit_cells(*self)[i as int].take(f as int),
                decreases 8 - f,
            {
                let s = (7 - i) * 8 + f;
                row.push(if self.bit(s) == 1 { '1' } else { '0' });
                f = f + 1;
                assert(row@ =~= bit_cells(*self)[i as int].take(f as int));
            }
            assert(row@ =~= bit_cells(*self)[i as int]);
            rows.push(row);
            i = i + 1;
        }
        rows
    }

    /// The set as printed: `Bitboard(` its value `)`, then one line per rank
    /// from "8" down to "1" (rank number, then each bit followed by a space),
    /// then the file letters.
    pub fn render(&self) -> (r: String)
        ensures
            r@ == bitboard_text(*self),
    {
        let rows = self.grid();
        let mut out: Vec<char> = Vec::new();
        out.push('B');
        out.push('i');
        out.push('t');
        out.push('b');
        out.push('o');
        out.push('a');
        out.push('r');
        out.push('d');
        out.push('(');
        push_decimal(&mut out, self.0);
        out.push(')');
        out.push('\n');
        push_grid(&mut out, &rows, Ghost(bit_cells(*self)));
        push_file_line(&mut out);
        assert(out@ =~= bitboard_text(*self));
        string_of(&out)
    }
}

} // verus!
