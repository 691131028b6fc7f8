//! Bit-level facts about occupancy masks.
//!
//! An occupancy mask is well formed when it is exactly the union of the bit
//! patterns of the squares it claims (`mask_wf`). On such masks the
//! three-in-a-row scan `m & (m << 1) & (m >> 1)` leaves a bit in the middle
//! of a line's 4-bit group exactly when the whole group — and so the whole
//! line — is occupied; these lemmas state that, and what the position of the
//! scan's highest bit says about which line it is.

use vstd::prelude::*;

verus! {

use crate::model::Square;
use crate::model::Triple;
use crate::model::square_mask;
use crate::model::triple_index;
use crate::model::triple_won;
use vstd::std_specs::bits::axiom_u32_leading_zeros;
use vstd::std_specs::bits::u32_leading_zeros;

/// The mask holds either all of `b`'s bits or none of them.
pub open spec fn all_or_none(m: u32, b: u32) -> bool {
    m & b == 0 || m & b == b
}

/// `b` is the bit pattern of one of the 9 squares.
pub open spec fn square_values(b: u32) -> bool {
    ||| b == 0x8008_0080u32
    ||| b == 0x4000_8000u32
    ||| b == 0x2000_0808u32
    ||| b == 0x0804_0000u32
    ||| b == 0x0400_4044u32
    ||| b == 0x0200_0400u32
    ||| b == 0x0082_0002u32
    ||| b == 0x0040_2000u32
    ||| b == 0x0020_0220u32
}

/// A well-formed occupancy mask: the unused low bit of every 4-bit group is
/// clear, and each square's pattern is present in full or not at all. Since
/// the square patterns are pairwise disjoint and together cover every other
/// bit, such a mask is exactly the union of the patterns of the squares it
/// claims.
pub open spec fn mask_wf(m: u32) -> bool {
    &&& m & 0x1111_1111u32 == 0
    &&& all_or_none(m, 0x8008_0080u32)
    &&& all_or_none(m, 0x4000_8000u32)
    &&& all_or_none(m, 0x2000_0808u32)
    &&& all_or_none(m, 0x0804_0000u32)
    &&& all_or_none(m, 0x0400_4044u32)
    &&& all_or_none(m, 0x0200_0400u32)
    &&& all_or_none(m, 0x0082_0002u32)
    &&& all_or_none(m, 0x0040_2000u32)
    &&& all_or_none(m, 0x0020_0220u32)
}

/// The three-in-a-row scan: a bit survives exactly where the mask holds it
/// together with both of its neighbours.
pub open spec fn win_scan(m: u32) -> u32 {
    m & (m << 1u32) & (m >> 1u32)
}

/// The empty mask is well formed.
pub proof fn lemma_zero_mask_wf()
    ensures
        mask_wf(0u32),
{
    assert(mask_wf(0u32)) by (bit_vector);
}

/// Adding bits with OR makes all of them present.
pub proof fn lemma_or_covers(m: u32, b: u32)
    ensures
        (m | b) & b == b,
{
    assert((m | b) & b == b) by (bit_vector);
}

/// Adding disjoint bits leaves the view through `c` unchanged.
pub proof fn lemma_or_preserves_other(m: u32, b: u32, c: u32)
    requires
        b & c == 0,
    ensures
        (m | b) & c == m & c,
{
    assert(b & c == 0 ==> (m | b) & c == m & c) by (bit_vector);
}

/// Bitwise AND commutes.
pub proof fn lemma_and_comm(a: u32, b: u32)
    ensures
        a & b == b & a,
{
    assert(a & b == b & a) by (bit_vector);
}

/// A probe against the union of two masks splits into one probe per mask.
pub proof fn lemma_probe_split(x: u32, o: u32, b: u32)
    ensures
        b & (x | o) == 0 <==> (b & x == 0 && b & o == 0),
{
    assert(b & (x | o) == 0 <==> (b & x == 0 && b & o == 0)) by (bit_vector);
}

/// Bits disjoint from both masks keep the two masks disjoint when added to
/// either one.
pub proof fn lemma_move_keeps_disjoint(x: u32, o: u32, b: u32)
    requires
        x & o == 0,
        b & x == 0,
        b & o == 0,
    ensures
        (x | b) & o == 0,
        x & (o | b) == 0,
{
    assert(x & o == 0 && b & x == 0 && b & o == 0 ==> ((x | b) & o == 0 && x & (o | b) == 0))
        by (bit_vector);
}

/// Every single square pattern is itself a well-formed mask, and none is
/// empty.
pub proof fn lemma_square_value_wf(b: u32)
    requires
        square_values(b),
    ensures
        mask_wf(b),
        b != 0,
{
    assert(square_values(b) ==> mask_wf(b) && b != 0) by (bit_vector);
}

/// Distinct square patterns share no bits.
pub proof fn lemma_square_values_disjoint(b1: u32, b2: u32)
    requires
        square_values(b1),
        square_values(b2),
        b1 != b2,
    ensures
        b1 & b2 == 0,
{
    assert(square_values(b1) && square_values(b2) && b1 != b2 ==> b1 & b2 == 0) by (bit_vector);
}

/// Well-formedness is preserved by union.
pub proof fn lemma_mask_wf_or(m1: u32, m2: u32)
    requires
        mask_wf(m1),
        mask_wf(m2),
    ensures
        mask_wf(m1 | m2),
{
    assert(mask_wf(m1) && mask_wf(m2) ==> mask_wf(m1 | m2)) by (bit_vector);
}

/// On a well-formed mask a square's pattern is never partially present: the
/// mask either misses it entirely or claims the square.
pub proof fn lemma_all_or_none_of_square(m: u32, b: u32)
    requires
        mask_wf(m),
        square_values(b),
    ensures
        m & b == 0 <==> !(m & b == b),
{
    assert(mask_wf(m) && square_values(b) ==> (m & b == 0 <==> !(m & b == b))) by (bit_vector);
}

/// The pattern of every square is one of the 9 square values.
pub proof fn lemma_square_mask_values(s: Square)
    ensures
        square_values(square_mask(s)),
{
}

/// On a mask whose unused group bits are clear, the scan keeps exactly the
/// middle bit of every fully occupied 4-bit line group, and nothing else.
pub proof fn lemma_scan_finds_groups(m: u32)
    requires
        m & 0x1111_1111u32 == 0,
    ensures
        win_scan(m) & 0xbbbb_bbbbu32 == 0,
        win_scan(m) & 0x4000_0000u32 != 0 <==> m & 0xe000_0000u32 == 0xe000_0000u32,
        win_scan(m) & 0x0400_0000u32 != 0 <==> m & 0x0e00_0000u32 == 0x0e00_0000u32,
        win_scan(m) & 0x0040_0000u32 != 0 <==> m & 0x00e0_0000u32 == 0x00e0_0000u32,
        win_scan(m) & 0x0004_0000u32 != 0 <==> m & 0x000e_0000u32 == 0x000e_0000u32,
        win_scan(m) & 0x0000_4000u32 != 0 <==> m & 0x0000_e000u32 == 0x0000_e000u32,
        win_scan(m) & 0x0000_0400u32 != 0 <==> m & 0x0000_0e00u32 == 0x0000_0e00u32,
        win_scan(m) & 0x0000_0040u32 != 0 <==> m & 0x0000_00e0u32 == 0x0000_00e0u32,
        win_scan(m) & 0x0000_0004u32 != 0 <==> m & 0x0000_000eu32 == 0x0000_000eu32,
{
    assert(m & 0x1111_1111u32 == 0 ==> win_scan(m) & 0xbbbb_bbbbu32 == 0) by (bit_vector);
    assert((win_scan(m) & 0x4000_0000u32 != 0 <==> m & 0xe000_0000u32 == 0xe000_0000u32) && (
    win_scan(m) & 0x0400_0000u32 != 0 <==> m & 0x0e00_0000u32 == 0x0e00_0000u32) && (win_scan(m)
        & 0x0040_0000u32 != 0 <==> m & 0x00e0_0000u32 == 0x00e0_0000u32) && (win_scan(m)
        & 0x0004_0000u32 != 0 <==> m & 0x000e_0000u32 == 0x000e_0000u32) && (win_scan(m)
        & 0x0000_4000u32 != 0 <==> m & 0x0000_e000u32 == 0x0000_e000u32) && (win_scan(m)
        & 0x0000_0400u32 != 0 <==> m & 0x0000_0e00u32 == 0x0000_0e00u32) && (win_scan(m)
        & 0x0000_0040u32 != 0 <==> m & 0x0000_00e0u32 == 0x0000_00e0u32) && (win_scan(m)
        & 0x0000_0004u32 != 0 <==> m & 0x0000_000eu32 == 0x0000_000eu32)) by (bit_vector);
}

/// On a well-formed mask a full 4-bit line group is the same thing as the
/// line's three squares all being claimed.
pub proof fn lemma_group_means_squares(m: u32)
    requires
        mask_wf(m),
    ensures
        m & 0xe000_0000u32 == 0xe000_0000u32 <==> triple_won(m, Triple::RowA),
        m & 0x0e00_0000u32 == 0x0e00_0000u32 <==> triple_won(m, Triple::RowB),
        m & 0x00e0_0000u32 == 0x00e0_0000u32 <==> triple_won(m, Triple::RowC),
        m & 0x000e_0000u32 == 0x000e_0000u32 <==> triple_won(m, Triple::Col1),
        m & 0x0000_e000u32 == 0x0000_e000u32 <==> triple_won(m, Triple::Col2),
        m & 0x0000_0e00u32 == 0x0000_0e00u32 <==> triple_won(m, Triple::Col3),
        m & 0x0000_00e0u32 == 0x0000_00e0u32 <==> triple_won(m, Triple::Diag1),
        m & 0x0000_000eu32 == 0x0000_000eu32 <==> triple_won(m, Triple::Diag2),
{
    assert(mask_wf(m) ==> ((m & 0xe000_0000u32 == 0xe000_0000u32 <==> (m & 0x8008_0080u32
        == 0x8008_0080u32 && m & 0x4000_8000u32 == 0x4000_8000u32 && m & 0x2000_0808u32
        == 0x2000_0808u32)) && (m & 0x0e00_0000u32 == 0x0e00_0000u32 <==> (m & 0x0804_0000u32
        == 0x0804_0000u32 && m & 0x0400_4044u32 == 0x0400_4044u32 && m & 0x0200_0400u32
        == 0x0200_0400u32)) && (m & 0x00e0_0000u32 == 0x00e0_0000u32 <==> (m & 0x0082_0002u32
        == 0x0082_0002u32 && m & 0x0040_2000u32 == 0x0040_2000u32 && m & 0x0020_0220u32
        == 0x0020_0220u32)) && (m & 0x000e_0000u32 == 0x000e_0000u32 <==> (m & 0x8008_0080u32
        == 0x8008_0080u32 && m & 0x0804_0000u32 == 0x0804_0000u32 && m & 0x0082_0002u32
        == 0x0082_0002u32)) && (m & 0x0000_e000u32 == 0x0000_e000u32 <==> (m & 0x4000_8000u32
        == 0x4000_8000u32 && m & 0x0400_4044u32 == 0x0400_4044u32 && m & 0x0040_2000u32
        == 0x0040_2000u32)) && (m & 0x0000_0e00u32 == 0x0000_0e00u32 <==> (m & 0x2000_0808u32
        == 0x2000_0808u32 && m & 0x0200_0400u32 == 0x0200_0400u32 && m & 0x0020_0220u32
        == 0x0020_0220u32)) && (m & 0x0000_00e0u32 == 0x0000_00e0u32 <==> (m & 0x8008_0080u32
        == 0x8008_0080u32 && m & 0x0400_4044u32 == 0x0400_4044u32 && m & 0x0020_0220u32
        == 0x0020_0220u32)) && (m & 0x0000_000eu32 == 0x0000_000eu32 <==> (m & 0x2000_0808u32
        == 0x2000_0808u32 && m & 0x0400_4044u32 == 0x0400_4044u32 && m & 0x0082_0002u32
        == 0x0082_0002u32)))) by (bit_vector);
}

/// A mask whose scan comes out empty wins no line at all.
pub proof fn lemma_scan_zero_no_winner(m: u32)
    requires
        mask_wf(m),
        win_scan(m) == 0,
    ensures
        forall|t: Triple| !triple_won(m, t),
{
    lemma_scan_finds_groups(m);
    lemma_group_means_squares(m);
    let c = win_scan(m);
    assert(c == 0 ==> (c & 0x4000_0000u32 == 0 && c & 0x0400_0000u32 == 0 && c & 0x0040_0000u32
        == 0 && c & 0x0004_0000u32 == 0 && c & 0x0000_4000u32 == 0 && c & 0x0000_0400u32 == 0 && c
        & 0x0000_0040u32 == 0 && c & 0x0000_0004u32 == 0)) by (bit_vector);
}

/// When the scan of a well-formed mask is nonzero, its leading-zero count
/// sits one bit above a full line group: it is `4 * i + 1` for a line index
/// `i`, that line is won, and every line with a smaller index is not — the
/// scan reports the highest-order won line.
pub proof fn lemma_scan_winner(m: u32)
    requires
        mask_wf(m),
        win_scan(m) != 0,
    ensures
        1 <= u32_leading_zeros(win_scan(m)) <= 29,
        (u32_leading_zeros(win_scan(m)) - 1) % 4 == 0,
        forall|t: Triple|
            triple_index(t) == (u32_leading_zeros(win_scan(m)) - 1) / 4
                ==> triple_won(m, t),
        forall|t: Triple|
            triple_index(t) < (u32_leading_zeros(win_scan(m)) - 1) / 4
                ==> !triple_won(m, t),
{
    lemma_scan_finds_groups(m);
    lemma_group_means_squares(m);
    let c = win_scan(m);
    axiom_u32_leading_zeros(c);
    let lz = u32_leading_zeros(c);
    assert(lz < 32);
    let p: u32 = (31 - lz) as u32;
    assert((c >> p) & 1u32 != 0);
    assert(lz == 1 || lz == 5 || lz == 9 || lz == 13 || lz == 17 || lz == 21 || lz == 25 || lz
        == 29) by (bit_vector)
        requires
            c & 0xbbbb_bbbbu32 == 0,
            lz <= 31u32,
            p + lz == 31,
            (c >> p) & 1u32 != 0,
    ;
    if lz == 1 {
        assert(c & 0x4000_0000u32 != 0) by (bit_vector)
            requires
                (c >> 30u32) & 1u32 != 0,
        ;
        assert(forall|t: Triple| triple_index(t) == 0 ==> triple_won(m, t));
        assert(forall|t: Triple| triple_index(t) < 0 ==> !triple_won(m, t));
    } else if lz == 5 {
        assert(c >> 27u32 == 0);
        assert(c & 0x0400_0000u32 != 0 && c & 0x4000_0000u32 == 0) by (bit_vector)
            requires
                (c >> 26u32) & 1u32 != 0,
                c >> 27u32 == 0,
        ;
        assert(forall|t: Triple| triple_index(t) == 1 ==> triple_won(m, t));
        assert(forall|t: Triple| triple_index(t) < 1 ==> !triple_won(m, t));
    } else if lz == 9 {
        assert(c >> 23u32 == 0);
        assert(c & 0x0040_0000u32 != 0 && c & 0x0400_0000u32 == 0 && c & 0x4000_0000u32 == 0)
            by (bit_vector)
            requires
                (c >> 22u32) & 1u32 != 0,
                c >> 23u32 == 0,
        ;
        assert(forall|t: Triple| triple_index(t) == 2 ==> triple_won(m, t));
        assert(forall|t: Triple| triple_index(t) < 2 ==> !triple_won(m, t));
    } else if lz == 13 {
        assert(c >> 19u32 == 0);
        assert(c & 0x0004_0000u32 != 0 && c & 0x0040_0000u32 == 0 && c & 0x0400_0000u32 == 0 && c
            & 0x4000_0000u32 == 0) by (bit_vector)
            requires
                (c >> 18u32) & 1u32 != 0,
                c >> 19u32 == 0,
        ;
        assert(forall|t: Triple| triple_index(t) == 3 ==> triple_won(m, t));
        assert(forall|t: Triple| triple_index(t) < 3 ==> !triple_won(m, t));
    } else if lz == 17 {
        assert(c >> 15u32 == 0);
        assert(c & 0x0000_4000u32 != 0 && c & 0x0004_0000u32 == 0 && c & 0x0040_0000u32 == 0 && c
            & 0x0400_0000u32 == 0 && c & 0x4000_0000u32 == 0) by (bit_vector)
            requires
                (c >> 14u32) & 1u32 != 0,
                c >> 15u32 == 0,
        ;
        assert(forall|t: Triple| triple_index(t) == 4 ==> triple_won(m, t));
        assert(forall|t: Triple| triple_index(t) < 4 ==> !triple_won(m, t));
    } else if lz == 21 {
        assert(c >> 11u32 == 0);
        assert(c & 0x0000_0400u32 != 0 && c & 0x0000_4000u32 == 0 && c & 0x0004_0000u32 == 0 && c
            & 0x0040_0000u32 == 0 && c & 0x0400_0000u32 == 0 && c & 0x4000_0000u32 == 0)
            by (bit_vector)
            requires
                (c >> 10u32) & 1u32 != 0,
                c >> 11u32 == 0,
        ;
        assert(forall|t: Triple| triple_index(t) == 5 ==> triple_won(m, t));
        assert(forall|t: Triple| triple_index(t) < 5 ==> !triple_won(m, t));
    } else if lz == 25 {
        assert(c >> 7u32 == 0);
        assert(c & 0x0000_0040u32 != 0 && c & 0x0000_0400u32 == 0 && c & 0x0000_4000u32 == 0 && c
            & 0x0004_0000u32 == 0 && c & 0x0040_0000u32 == 0 && c & 0x0400_0000u32 == 0 && c
            & 0x4000_0000u32 == 0) by (bit_vector)
            requires
                (c >> 6u32) & 1u32 != 0,
                c >> 7u32 == 0,
        ;
        assert(forall|t: Triple| triple_index(t) == 6 ==> triple_won(m, t));
        assert(forall|t: Triple| triple_index(t) < 6 ==> !triple_won(m, t));
    } else {
        assert(c >> 3u32 == 0);
        assert(c & 0x0000_0004u32 != 0 && c & 0x0000_0040u32 == 0 && c & 0x0000_0400u32 == 0 && c
            & 0x0000_4000u32 == 0 && c & 0x0004_0000u32 == 0 && c & 0x0040_0000u32 == 0 && c
            & 0x0400_0000u32 == 0 && c & 0x4000_0000u32 == 0) by (bit_vector)
            requires
                (c >> 2u32) & 1u32 != 0,
                c >> 3u32 == 0,
        ;
        assert(forall|t: Triple| triple_index(t) == 7 ==> triple_won(m, t));
        assert(forall|t: Triple| triple_index(t) < 7 ==> !triple_won(m, t));
    }
}

/// The patterns of two distinct squares share no bits.
pub proof fn lemma_square_masks_disjoint(s1: Square, s2: Square)
    requires
        s1 != s2,
    ensures
        square_mask(s1) & square_mask(s2) == 0,
{
    let b1 = square_mask(s1);
    let b2 = square_mask(s2);
    lemma_square_mask_values(s1);
    lemma_square_mask_values(s2);
    assert(b1 != b2);
    lemma_square_values_disjoint(b1, b2);
}

} // verus!
