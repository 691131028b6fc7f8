//! The bit-packed board: one occupancy mask per mark, move legality, and
//! O(1) winner detection through the three-in-a-row scan.

use vstd::prelude::*;

verus! {

use crate::bits::lemma_all_or_none_of_square;
use crate::bits::lemma_and_comm;
use crate::bits::lemma_mask_wf_or;
use crate::bits::lemma_move_keeps_disjoint;
use crate::bits::lemma_or_covers;
use crate::bits::lemma_or_preserves_other;
use crate::bits::lemma_probe_split;
use crate::bits::lemma_scan_winner;
use crate::bits::lemma_scan_zero_no_winner;
use crate::bits::lemma_square_mask_values;
use crate::bits::lemma_square_masks_disjoint;
use crate::bits::lemma_square_value_wf;
use crate::bits::lemma_zero_mask_wf;
use crate::bits::mask_wf;
use crate::bits::win_scan;
use crate::model::ErrorKind;
use crate::model::Mark;
use crate::model::Square;
use crate::model::Triple;
use crate::model::mask_covers;
use crate::model::square_mask;
use crate::model::triple_index;
use crate::model::triple_won;
use vstd::std_specs::bits::u32_leading_zeros;

/// The occupancy state of both players, as two bit-packed masks. A board is
/// an immutable value: every move builds a new board.
#[derive(Debug, Clone, Copy)]
pub struct Board {
    xboard: u32,
    oboard: u32,
}

impl Board {
    /// The occupancy mask belonging to the given mark.
    pub closed spec fn mask_of(self, mk: Mark) -> u32 {
        match mk {
            Mark::Cross => self.xboard,
            Mark::Naught => self.oboard,
        }
    }

    /// Board invariant: both masks are unions of square patterns, and no bit
    /// is claimed by both marks.
    pub open spec fn wf(self) -> bool {
        &&& mask_wf(self.mask_of(Mark::Cross))
        &&& mask_wf(self.mask_of(Mark::Naught))
        &&& self.mask_of(Mark::Cross) & self.mask_of(Mark::Naught) == 0
    }

    /// The given mark occupies the given square.
    pub open spec fn occupied_by(self, mk: Mark, s: Square) -> bool {
        mask_covers(self.mask_of(mk), s)
    }

    /// Some mark occupies the given square.
    pub open spec fn occupied(self, s: Square) -> bool {
        self.occupied_by(Mark::Cross, s) || self.occupied_by(Mark::Naught, s)
    }

    /// The given mark occupies all three squares of the given line.
    pub open spec fn wins(self, mk: Mark, t: Triple) -> bool {
        triple_won(self.mask_of(mk), t)
    }

    /// The empty board: no square is occupied by either mark.
    pub fn new() -> (r: Board)
        ensures
            r.wf(),
            r.mask_of(Mark::Cross) == 0u32,
            r.mask_of(Mark::Naught) == 0u32,
            forall|mk: Mark, s: Square| !r.occupied_by(mk, s),
    {
        let r = Board { xboard: 0x0, oboard: 0x0 };
        proof {
            lemma_zero_mask_wf();
            assert(0u32 & 0u32 == 0) by (bit_vector);
            assert forall|mk: Mark, s: Square| !r.occupied_by(mk, s) by {
                let sm = square_mask(s);
                lemma_square_mask_values(s);
                lemma_square_value_wf(sm);
                assert(0u32 & sm == 0) by (bit_vector);
            }
        }
        r
    }

    /// Succeeds exactly when neither mask holds the square's bits; otherwise
    /// reports the square as occupied.
    fn check_index(&self, square: &Square) -> (r: Result<(), ErrorKind>)
        requires
            self.wf(),
        ensures
            match r {
                Ok(_) => !self.occupied(*square),
                Err(e) => self.occupied(*square) && e == ErrorKind::IndexError(*square),
            },
    {
        proof {
            let sm = square_mask(*square);
            lemma_square_mask_values(*square);
            lemma_probe_split(self.xboard, self.oboard, sm);
            lemma_and_comm(self.xboard, sm);
            lemma_and_comm(self.oboard, sm);
            lemma_all_or_none_of_square(self.xboard, sm);
            lemma_all_or_none_of_square(self.oboard, sm);
        }
        if square.bits() & (self.xboard | self.oboard) == 0 {
            Ok(())
        } else {
            Err(ErrorKind::IndexError(*square))
        }
    }

    /// Applies a move: on an unoccupied square, a new board with exactly that
    /// square added to the moving mark's occupancy and the other mask left
    /// untouched; on an occupied square, the occupied-square failure, with
    /// this board unchanged.
    pub fn make_move(&self, mark: &Mark, square: Square) -> (r: Result<Board, ErrorKind>)
        requires
            self.wf(),
        ensures
            match r {
                Ok(b) => {
                    &&& !self.occupied(square)
                    &&& b.wf()
                    &&& b.mask_of(*mark) == self.mask_of(*mark) | square_mask(square)
                    &&& b.mask_of(mark.flipped()) == self.mask_of(mark.flipped())
                    &&& forall|mk: Mark, s: Square|
                        b.occupied_by(mk, s) <==> (self.occupied_by(mk, s) || (mk == *mark && s
                            == square))
                },
                Err(e) => self.occupied(square) && e == ErrorKind::IndexError(square),
            },
    {
        match self.check_index(&square) {
            Err(e) => Err(e),
            Ok(_) => {
                let b = match mark {
                    Mark::Cross => Board {
                        xboard: self.xboard | square.bits(),
                        oboard: self.oboard,
                    },
                    Mark::Naught => Board {
                        xboard: self.xboard,
                        oboard: self.oboard | square.bits(),
                    },
                };
                proof {
                    let sm = square_mask(square);
                    lemma_square_mask_values(square);
                    lemma_square_value_wf(sm);
                    lemma_all_or_none_of_square(self.xboard, sm);
                    lemma_all_or_none_of_square(self.oboard, sm);
                    lemma_and_comm(self.xboard, sm);
                    lemma_and_comm(self.oboard, sm);
                    lemma_mask_wf_or(self.xboard, sm);
                    lemma_mask_wf_or(self.oboard, sm);
                    lemma_move_keeps_disjoint(self.xboard, self.oboard, sm);
                    assert forall|mk: Mark, s: Square|
                        b.occupied_by(mk, s) <==> (self.occupied_by(mk, s) || (mk == *mark && s
                            == square)) by {
                        if s == square {
                            lemma_or_covers(self.xboard, sm);
                            lemma_or_covers(self.oboard, sm);
                        } else {
                            lemma_square_masks_disjoint(square, s);
                            lemma_or_preserves_other(self.xboard, sm, square_mask(s));
                            lemma_or_preserves_other(self.oboard, sm, square_mask(s));
                        }
                    }
                }
                Ok(b)
            },
        }
    }

    /// The winner, if a complete line exists: Cross's board is scanned first,
    /// then Naught's, and within one board the line with the smallest index
    /// whose 4-bit group survives the scan is reported.
    pub fn calculate_winner(&self) -> (r: Option<(Mark, Triple)>)
        requires
            self.wf(),
        ensures
            match r {
                Some(win) => {
                    &&& self.wins(win.0, win.1)
                    &&& forall|t: Triple|
                        triple_index(t) < triple_index(win.1) ==> !self.wins(win.0, t)
                    &&& win.0 == Mark::Naught ==> forall|t: Triple| !self.wins(Mark::Cross, t)
                },
                None => forall|t: Triple|
                    !self.wins(Mark::Cross, t) && !self.wins(Mark::Naught, t),
            },
    {
        let xc = self.xboard & (self.xboard << 1) & (self.xboard >> 1);
        let oc = self.oboard & (self.oboard << 1) & (self.oboard >> 1);
        if xc >= 1 {
            proof {
                assert(xc == win_scan(self.xboard));
                lemma_scan_winner(self.xboard);
            }
            let lz = xc.leading_zeros();
            let idx = (lz - 1) >> 2;
            proof {
                assert(lz == u32_leading_zeros(win_scan(self.xboard)));
                let d: u32 = (lz - 1) as u32;
                assert(d >> 2u32 == d / 4u32) by (bit_vector);
            }
            Some((Mark::Cross, Triple::from_index(idx)))
        } else if oc >= 1 {
            proof {
                assert(xc == win_scan(self.xboard));
                assert(oc == win_scan(self.oboard));
                lemma_scan_zero_no_winner(self.xboard);
                lemma_scan_winner(self.oboard);
            }
            let lz = oc.leading_zeros();
            let idx = (lz - 1) >> 2;
            proof {
                assert(lz == u32_leading_zeros(win_scan(self.oboard)));
                let d: u32 = (lz - 1) as u32;
                assert(d >> 2u32 == d / 4u32) by (bit_vector);
            }
            Some((Mark::Naught, Triple::from_index(idx)))
        } else {
            proof {
                assert(xc == win_scan(self.xboard));
                assert(oc == win_scan(self.oboard));
                lemma_scan_zero_no_winner(self.xboard);
                lemma_scan_zero_no_winner(self.oboard);
            }
            None
        }
    }
}

/// Law: on a well-formed board no square is ever claimed by both marks — the
/// masks are disjoint, so a shared square would need a square pattern with no
/// bits.
pub proof fn lemma_square_never_double_claimed(b: Board, s: Square)
    requires
        b.wf(),
    ensures
        !(b.occupied_by(Mark::Cross, s) && b.occupied_by(Mark::Naught, s)),
{
    let x = b.mask_of(Mark::Cross);
    let o = b.mask_of(Mark::Naught);
    let sm = square_mask(s);
    lemma_square_mask_values(s);
    lemma_square_value_wf(sm);
    assert(x & o == 0 && sm != 0 ==> !(x & sm == sm && o & sm == sm)) by (bit_vector);
}

} // verus!
