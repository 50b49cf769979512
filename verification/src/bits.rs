//! Facts about the 64-bit words that hold a board: seven column fields of
//! seven bits each, six rows and one guard bit on top.

use vstd::prelude::*;

verus! {

/// The lowest bit of every column field.
pub const BOTTOM_MASK: u64 = 0x0000_0408_1020_4081;

/// Every bit that stands for a cell of the board: the guard bits and the
/// bits above the last column are left out.
pub const BOARD_MASK: u64 = 0x0000_fdfb_f7ef_dfbf;

/// Whether bit `i` of `x` is set.
pub open spec fn bit_set(x: u64, i: u64) -> bool {
    (x >> i) & 1 == 1
}

/// The bits of a board as play can produce them: no disk outside the
/// cells, every column filled from the bottom without a gap, and the disks
/// of the side to move among the disks on the board.
pub open spec fn wf_bits(mask: u64, position: u64) -> bool {
    &&& mask & !BOARD_MASK == 0
    &&& mask & ((mask + BOTTOM_MASK) as u64) == 0
    &&& position & !mask == 0
}

/// The empty board is well-formed, and none of its bits is set.
pub proof fn lemma_empty(j: u64)
    by (bit_vector)
    ensures
        wf_bits(0, 0),
        !bit_set(0, j),
{
}

/// The words of a board without disks outside the cells can take the foot
/// of every column without overflow.
pub proof fn lemma_foot_fits(mask: u64)
    by (bit_vector)
    requires
        mask & !BOARD_MASK == 0,
    ensures
        mask + BOTTOM_MASK <= 0xffff_ffff_ffff_ffff,
{
}

/// A set bit of a word without guard bits lies on a cell.
pub proof fn lemma_cell_bit(mask: u64, j: u64)
    by (bit_vector)
    requires
        mask & !BOARD_MASK == 0,
        bit_set(mask, j),
    ensures
        j < 49,
        j % 7 != 6,
{
}

/// In a column filled from the bottom, the cell under a disk holds a disk.
pub proof fn lemma_gravity(mask: u64, j: u64, k: u64)
    by (bit_vector)
    requires
        mask & !BOARD_MASK == 0,
        mask & ((mask + BOTTOM_MASK) as u64) == 0,
        j < 63,
        k == j + 1,
        j % 7 != 6,
        bit_set(mask, k),
    ensures
        bit_set(mask, j),
{
}

/// Testing, setting and clearing one bit.
pub proof fn lemma_single_bit(x: u64, k: u64, j: u64)
    by (bit_vector)
    requires
        k < 64,
        j < 64,
    ensures
        (x & (1u64 << k) != 0) == bit_set(x, k),
        bit_set(x | (1u64 << k), j) == (bit_set(x, j) || j == k),
        bit_set(x ^ (1u64 << k), j) == (bit_set(x, j) != (j == k)),
{
}

/// Bits of an exclusive or, and of a word that lies within another.
pub proof fn lemma_xor_bit(p: u64, m: u64, j: u64)
    by (bit_vector)
    requires
        j < 64,
    ensures
        bit_set(p ^ m, j) == (bit_set(p, j) != bit_set(m, j)),
        p & !m == 0 && bit_set(p, j) ==> bit_set(m, j),
{
}

/// Adding one at the foot of a column that has an open cell sets the lowest
/// open cell of that column, and nothing else.
pub proof fn lemma_drop(mask: u64, position: u64, sh: u64, k: u64, below: u64)
    by (bit_vector)
    requires
        wf_bits(mask, position),
        sh % 7 == 0,
        sh <= 42,
        sh <= k,
        k <= sh + 5,
        !bit_set(mask, k),
        k > sh ==> below + 1 == k && bit_set(mask, below),
    ensures
        mask + (1u64 << sh) <= 0xffff_ffff_ffff_ffff,
        mask | ((mask + (1u64 << sh)) as u64) == mask | (1u64 << k),
        wf_bits(mask | (1u64 << k), position ^ mask),
        !bit_set(position, k),
{
}

/// Clearing the top disk of a column leaves the disks within the cells and
/// the columns without a gap; the disks of the side to move stay among the
/// disks exactly where the cleared disk was not one of them.
pub proof fn lemma_undo(mask: u64, position: u64, k: u64, above: u64)
    by (bit_vector)
    requires
        wf_bits(mask, position),
        k < 49,
        bit_set(mask, k),
        k % 7 != 5 ==> above == k + 1 && !bit_set(mask, above),
    ensures
        (mask ^ (1u64 << k)) & !BOARD_MASK == 0,
        (mask ^ (1u64 << k)) & (((mask ^ (1u64 << k)) + BOTTOM_MASK) as u64) == 0,
        ((position ^ (mask ^ (1u64 << k))) & !(mask ^ (1u64 << k)) == 0) == !bit_set(position, k),
{
}

/// Setting an unset bit and clearing it again, and flipping twice, give
/// back the words that one began with.
pub proof fn lemma_drop_undo(mask: u64, position: u64, k: u64)
    by (bit_vector)
    requires
        k < 64,
        !bit_set(mask, k),
    ensures
        (mask | (1u64 << k)) ^ (1u64 << k) == mask,
        (position ^ mask) ^ mask == position,
{
}

/// The word whose set bits mark where four set bits of `m`, `s` apart,
/// begin.
pub open spec fn four_mask(m: u64, s: u64) -> u64 {
    let t = m & (m >> s);
    t & (t >> ((2 * s) as u64))
}

/// A bit of `four_mask` is set exactly where four bits of `m` at steps of
/// `s` are set.
pub proof fn lemma_four(m: u64, s: u64, i: u64)
    by (bit_vector)
    requires
        1 <= s <= 8,
        i < 64,
    ensures
        bit_set(four_mask(m, s), i) == (bit_set(m, i) && bit_set(m, (i + s) as u64) && bit_set(
            m,
            (i + 2 * s) as u64,
        ) && bit_set(m, (i + 3 * s) as u64)),
        bit_set(four_mask(m, s), i) ==> four_mask(m, s) != 0,
{
}

/// How the bits of a word move when it is shifted right by one.
pub proof fn lemma_shift_step(x: u64, j: u64)
    by (bit_vector)
    requires
        j < 63,
    ensures
        x != 0 && !bit_set(x, 0) ==> (x >> 1) != 0 && (x >> 1) < x,
        bit_set(x >> 1, j) == bit_set(x, (j + 1) as u64),
        !bit_set(x >> 1, 63),
{
}

/// A word that is not zero has a set bit: the lemma hands back its index.
pub proof fn lemma_some_bit(x: u64) -> (i: u64)
    requires
        x != 0,
    ensures
        i < 64,
        bit_set(x, i),
    decreases x,
{
    if bit_set(x, 0) {
        0
    } else {
        lemma_shift_step(x, 0);
        let j = lemma_some_bit(x >> 1);
        lemma_shift_step(x, 0);
        if j < 63 {
            lemma_shift_step(x, j);
            (j + 1) as u64
        } else {
            0
        }
    }
}

/// The disks of the other side are disks of the board too.
pub proof fn lemma_swap(mask: u64, position: u64)
    by (bit_vector)
    requires
        wf_bits(mask, position),
    ensures
        wf_bits(mask, position ^ mask),
{
}

/// Setting the bit of a cell keeps the disks within the cells, and the disks
/// of the side to move among the disks.
pub proof fn lemma_place(mask: u64, position: u64, k: u64)
    by (bit_vector)
    requires
        mask & !BOARD_MASK == 0,
        position & !mask == 0,
        k < 49,
        k % 7 != 6,
    ensures
        (mask | (1u64 << k)) & !BOARD_MASK == 0,
        position & !(mask | (1u64 << k)) == 0,
        (position | (1u64 << k)) & !(mask | (1u64 << k)) == 0,
{
}

/// The sum of the two words of a well-formed board fits a word.
pub proof fn lemma_key_fits(mask: u64, position: u64)
    by (bit_vector)
    requires
        wf_bits(mask, position),
    ensures
        mask + position <= 0x0001_ffff_ffff_ffff,
{
}

/// Two well-formed boards whose words have the same sum have the same
/// words.
pub proof fn lemma_key_injective(m1: u64, p1: u64, m2: u64, p2: u64)
    by (bit_vector)
    requires
        wf_bits(m1, p1),
        wf_bits(m2, p2),
        m1 + p1 == m2 + p2,
    ensures
        m1 == m2,
        p1 == p2,
{
}

} // verus!
