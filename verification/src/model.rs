//! The basic vocabulary of the game: player marks, board squares with their
//! bit-packed encodings, winning lines, and the one recoverable error.

use vstd::prelude::*;

verus! {

/// The single recoverable failure: a move aimed at a square that is already
/// claimed by either player. It carries the offending square.
#[derive(Debug, Clone, Copy, PartialEq, Eq)]
pub enum ErrorKind {
    IndexError(Square),
}

/// One of the two players' symbols.
#[derive(Debug, PartialEq, Eq)]
pub enum Mark {
    Cross,
    Naught,
}

impl Mark {
    /// The opposite mark, at the specification level.
    pub open spec fn flipped(self) -> Mark {
        match self {
            Mark::Cross => Mark::Naught,
            Mark::Naught => Mark::Cross,
        }
    }

    /// The mark of the opposing player.
    pub fn other(&self) -> (r: Mark)
        ensures
            r == self.flipped(),
    {
        match self {
            Mark::Cross => Mark::Naught,
            Mark::Naught => Mark::Cross,
        }
    }

    /// The single-character display symbol for this mark.
    pub fn to_str(&self) -> (r: &str)
        ensures
            *self == Mark::Cross ==> r@ == "X"@,
            *self == Mark::Naught ==> r@ == "O"@,
    {
        match self {
            Mark::Cross => "X",
            Mark::Naught => "O",
        }
    }
}

/// Law: flipping a mark twice gives the original mark back, for both marks.
pub proof fn lemma_mark_other_involution(m: Mark)
    ensures
        m.flipped().flipped() == m,
{
}

/// One of the 9 positions of the 3x3 grid: rows A-C, columns 1-3.
#[derive(Debug, Clone, Copy, PartialEq, Eq)]
pub enum Square {
    A1,
    A2,
    A3,
    B1,
    B2,
    B3,
    C1,
    C2,
    C3,
}

/// The fixed 32-bit pattern of each square. The layout realises the
/// three-in-a-row scan: the mask is read as eight 4-bit groups, one per
/// winning line (highest group = `RowA`, lowest = `Diag2`). A square
/// contributes to the group of every line it lies on, with bit 8, 4 or 2 of
/// the group according to whether it is the line's first, second or third
/// square; bit 1 of each group is never used. A line is complete exactly when
/// its whole group is set, and distinct squares never share a bit.
pub open spec fn square_mask(s: Square) -> u32 {
    match s {
        Square::A1 => 0x8008_0080u32,
        Square::A2 => 0x4000_8000u32,
        Square::A3 => 0x2000_0808u32,
        Square::B1 => 0x0804_0000u32,
        Square::B2 => 0x0400_4044u32,
        Square::B3 => 0x0200_0400u32,
        Square::C1 => 0x0082_0002u32,
        Square::C2 => 0x0040_2000u32,
        Square::C3 => 0x0020_0220u32,
    }
}

impl Square {
    /// The bit pattern this square contributes to an occupancy mask.
    pub fn bits(&self) -> (r: u32)
        ensures
            r == square_mask(*self),
    {
        match self {
            Square::A1 => 0x8008_0080,
            Square::A2 => 0x4000_8000,
            Square::A3 => 0x2000_0808,
            Square::B1 => 0x0804_0000,
            Square::B2 => 0x0400_4044,
            Square::B3 => 0x0200_0400,
            Square::C1 => 0x0082_0002,
            Square::C2 => 0x0040_2000,
            Square::C3 => 0x0020_0220,
        }
    }
}

/// A mask claims a square when the square's whole bit pattern is present.
pub open spec fn mask_covers(m: u32, s: Square) -> bool {
    m & square_mask(s) == square_mask(s)
}

/// One of the 8 winning three-in-a-row lines.
#[derive(Debug, PartialEq, Eq)]
pub enum Triple {
    RowA,
    RowB,
    RowC,
    Col1,
    Col2,
    Col3,
    Diag1,
    Diag2,
}

/// The fixed index of each winning line; the scan reports a win by this
/// number, recovered from the position of the line's 4-bit group.
pub open spec fn triple_index(t: Triple) -> int {
    match t {
        Triple::RowA => 0,
        Triple::RowB => 1,
        Triple::RowC => 2,
        Triple::Col1 => 3,
        Triple::Col2 => 4,
        Triple::Col3 => 5,
        Triple::Diag1 => 6,
        Triple::Diag2 => 7,
    }
}

/// An occupancy mask wins a line when it claims all three of the line's
/// squares.
pub open spec fn triple_won(m: u32, t: Triple) -> bool {
    match t {
        Triple::RowA => mask_covers(m, Square::A1) && mask_covers(m, Square::A2) && mask_covers(
            m,
            Square::A3,
        ),
        Triple::RowB => mask_covers(m, Square::B1) && mask_covers(m, Square::B2) && mask_covers(
            m,
            Square::B3,
        ),
        Triple::RowC => mask_covers(m, Square::C1) && mask_covers(m, Square::C2) && mask_covers(
            m,
            Square::C3,
        ),
        Triple::Col1 => mask_covers(m, Square::A1) && mask_covers(m, Square::B1) && mask_covers(
            m,
            Square::C1,
        ),
        Triple::Col2 => mask_covers(m, Square::A2) && mask_covers(m, Square::B2) && mask_covers(
            m,
            Square::C2,
        ),
        Triple::Col3 => mask_covers(m, Square::A3) && mask_covers(m, Square::B3) && mask_covers(
            m,
            Square::C3,
        ),
        Triple::Diag1 => mask_covers(m, Square::A1) && mask_covers(m, Square::B2) && mask_covers(
            m,
            Square::C3,
        ),
        Triple::Diag2 => mask_covers(m, Square::A3) && mask_covers(m, Square::B2) && mask_covers(
            m,
            Square::C1,
        ),
    }
}

impl Triple {
    /// The winning line with the given index. An index past 7 would mean the
    /// bit-layout invariant was broken, so callers must rule it out.
    pub fn from_index(value: u32) -> (t: Triple)
        requires
            value <= 7,
        ensures
            triple_index(t) == value as int,
    {
        if value == 0 {
            Triple::RowA
        } else if value == 1 {
            Triple::RowB
        } else if value == 2 {
            Triple::RowC
        } else if value == 3 {
            Triple::Col1
        } else if value == 4 {
            Triple::Col2
        } else if value == 5 {
            Triple::Col3
        } else if value == 6 {
            Triple::Diag1
        } else {
            Triple::Diag2
        }
    }
}

} // verus!
