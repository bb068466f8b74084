//! Bit-level helpers for 64-bit board masks: a population-count function with
//! its specification, and the lemmas about setting and clearing single bits
//! that the move-application proofs rely on.
use vstd::prelude::*;

verus! {

/// Number of set bits in a 64-bit word.
pub open spec fn pop64(x: u64) -> nat
    decreases x,
{
    if x == 0 {
        0
    } else {
        (x % 2) as nat + pop64(x / 2)
    }
}

/// A mask with exactly one bit set, i.e. a mask that denotes one square.
pub open spec fn is_single_bit(x: u64) -> bool {
    x != 0 && x & (x - 1) as u64 == 0
}

/// The mask of square `t` (bit `t` set), for `0 <= t < 64`.
pub open spec fn sq_bit(t: int) -> u64 {
    1u64 << (t as u64)
}

/// Whether bit `t` of `x` is set.
pub open spec fn occ_at(x: u64, t: int) -> bool {
    x & sq_bit(t) != 0
}

pub proof fn lemma_single_bit_shl(i: u64)
    requires
        i < 64,
    ensures
        is_single_bit(1u64 << i),
{
    assert(1u64 << i != 0 && (1u64 << i) & ((1u64 << i) - 1) as u64 == 0) by (bit_vector)
        requires
            i < 64,
    ;
}

proof fn lemma_pop64_width(x: u64, w: u64)
    requires
        w <= 63,
        x < (1u64 << w),
    ensures
        pop64(x) <= w,
    decreases w,
{
    if w == 0 {
        assert(1u64 << 0u64 == 1) by (bit_vector);
    } else {
        assert(x < (1u64 << w) ==> x / 2 < (1u64 << (w - 1) as u64)) by (bit_vector)
            requires
                0 < w <= 63,
        ;
        lemma_pop64_width(x / 2, (w - 1) as u64);
    }
}

pub proof fn lemma_pop64_le(x: u64)
    ensures
        pop64(x) <= 64,
{
    if x != 0 {
        assert(x / 2 < (1u64 << 63u64)) by (bit_vector);
        lemma_pop64_width(x / 2, 63);
    }
}

/// Setting a clear bit raises the population count by one.
pub proof fn lemma_pop64_set(x: u64, t: u64)
    requires
        is_single_bit(t),
        x & t == 0,
    ensures
        pop64(x | t) == pop64(x) + 1,
    decreases t,
{
    if t == 1 {
        assert((x | 1) / 2 == x / 2 && (x | 1) % 2 == 1 && x % 2 == 0) by (bit_vector)
            requires
                x & 1 == 0,
        ;
    } else {
        assert(t % 2 == 0 && is_single_bit(t / 2) && (x / 2) & (t / 2) == 0 && (x | t) / 2 == (x
            / 2) | (t / 2) && (x | t) % 2 == x % 2) by (bit_vector)
            requires
                is_single_bit(t),
                t != 1,
                x & t == 0,
        ;
        lemma_pop64_set(x / 2, t / 2);
    }
}

/// Clearing a set bit lowers the population count by one.
pub proof fn lemma_pop64_clear(x: u64, t: u64)
    requires
        is_single_bit(t),
        x & t == t,
    ensures
        pop64(x) >= 1,
        pop64(x & !t) == pop64(x) - 1,
{
    let y = x & !t;
    assert(y & t == 0 && (y | t) == x) by (bit_vector)
        requires
            is_single_bit(t),
            x & t == t,
            y == x & !t,
    ;
    lemma_pop64_set(y, t);
}

/// Counts the set bits of `x`.
pub fn popcount64(x: u64) -> (r: u32)
    ensures
        r == pop64(x),
{
    let mut v: u64 = x;
    let mut c: u32 = 0;
    proof {
        lemma_pop64_le(x);
    }
    while v != 0
        invariant
            c + pop64(v) == pop64(x),
            pop64(x) <= 64,
        decreases v,
    {
        assert(v & 1 == v % 2 && v >> 1u64 == v / 2) by (bit_vector);
        c = c + (v & 1) as u32;
        v = v >> 1u64;
    }
    c
}

} // verus!

verus! {

/// A single set bit that meets a mask is contained in it.
pub proof fn lemma_single_and(t: u64, a: u64)
    by (bit_vector)
    requires
        is_single_bit(t),
        t & a != 0,
    ensures
        t & a == t,
{
}

/// Two equal-looking single bits: containment means equality.
pub proof fn lemma_single_eq(a: u64, b: u64)
    by (bit_vector)
    requires
        is_single_bit(a),
        is_single_bit(b),
        a & b == a,
    ensures
        a == b,
        (b & !a) | a == a,
{
}

/// A mask inside `a` misses everything disjoint from `a`.
pub proof fn lemma_subset_disjoint(t: u64, a: u64, b: u64)
    by (bit_vector)
    requires
        t & a == t,
        a & b == 0,
    ensures
        t & b == 0,
{
}

/// Clearing bits that are not set changes nothing.
pub proof fn lemma_clear_noop(a: u64, t: u64)
    by (bit_vector)
    requires
        a & t == 0,
    ensures
        a & !t == a,
{
}

/// A mask disjoint from a six-way union is disjoint from every part.
pub proof fn lemma_union_disjoint6(a: u64, b: u64, c: u64, d: u64, e: u64, g: u64, t: u64)
    by (bit_vector)
    requires
        t & (a | b | c | d | e | g) == 0,
    ensures
        t & a == 0,
        t & b == 0,
        t & c == 0,
        t & d == 0,
        t & e == 0,
        t & g == 0,
{
}

/// A bitboard that traded `f` for a fresh `t` stays disjoint from a
/// bitboard that held neither.
pub proof fn lemma_bits_move(a: u64, b: u64, f: u64, t: u64)
    by (bit_vector)
    requires
        a & b == 0,
        t & a == 0,
        t & b == 0,
    ensures
        ((a & !f) | t) & b == 0,
        b & ((a & !f) | t) == 0,
        ((b & !f) | t) & a == 0,
        a & ((b & !f) | t) == 0,
        ((a & !f) | t) & (b & !t) == 0,
{
}

/// Clearing bits preserves disjointness in every combination.
pub proof fn lemma_bits_clear(a: u64, b: u64, f: u64, t: u64)
    by (bit_vector)
    requires
        a & b == 0,
    ensures
        (a & !t) & b == 0,
        a & (b & !t) == 0,
        (a & !t) & (b & !t) == 0,
        (a & !f) & b == 0,
        (a & !f) & (b & !t) == 0,
{
}

/// The fifteen disjointness pairs of six bitboards survive clearing `t`
/// from each.
pub proof fn lemma_clear6_pairwise(a: u64, b: u64, c: u64, d: u64, e: u64, g: u64, t: u64)
    by (bit_vector)
    requires
        a & b == 0,
        a & c == 0,
        a & d == 0,
        a & e == 0,
        a & g == 0,
        b & c == 0,
        b & d == 0,
        b & e == 0,
        b & g == 0,
        c & d == 0,
        c & e == 0,
        c & g == 0,
        d & e == 0,
        d & g == 0,
        e & g == 0,
    ensures
        (a & !t) & (b & !t) == 0,
        (a & !t) & (c & !t) == 0,
        (a & !t) & (d & !t) == 0,
        (a & !t) & (e & !t) == 0,
        (a & !t) & (g & !t) == 0,
        (b & !t) & (c & !t) == 0,
        (b & !t) & (d & !t) == 0,
        (b & !t) & (e & !t) == 0,
        (b & !t) & (g & !t) == 0,
        (c & !t) & (d & !t) == 0,
        (c & !t) & (e & !t) == 0,
        (c & !t) & (g & !t) == 0,
        (d & !t) & (e & !t) == 0,
        (d & !t) & (g & !t) == 0,
        (e & !t) & (g & !t) == 0,
{
}

/// Clearing `t` from each of six bitboards clears it from their union.
pub proof fn lemma_union_clear6(a: u64, b: u64, c: u64, d: u64, e: u64, g: u64, t: u64)
    by (bit_vector)
    ensures
        ((a & !t) | (b & !t) | (c & !t) | (d & !t) | (e & !t) | (g & !t)) == (a | b | c | d | e | g)
            & !t,
{
}

/// Trading `f` for `t` in any one of six pairwise-disjoint bitboards trades
/// them in the union; the queening pawn shape (pawn bit off, queen bit on)
/// gives the same union.
pub proof fn lemma_union_move_pos(
    a: u64,
    b: u64,
    c: u64,
    d: u64,
    e: u64,
    g: u64,
    f: u64,
    t: u64,
)
    by (bit_vector)
    requires
        a & b == 0,
        a & c == 0,
        a & d == 0,
        a & e == 0,
        a & g == 0,
        b & c == 0,
        b & d == 0,
        b & e == 0,
        b & g == 0,
        c & d == 0,
        c & e == 0,
        c & g == 0,
        d & e == 0,
        d & g == 0,
        e & g == 0,
    ensures
        f & a == f ==> (((a & !f) | t) | b | c | d | e | g) == ((a | b | c | d | e | g) & !f) | t,
        f & b == f ==> (a | ((b & !f) | t) | c | d | e | g) == ((a | b | c | d | e | g) & !f) | t,
        f & c == f ==> (a | b | ((c & !f) | t) | d | e | g) == ((a | b | c | d | e | g) & !f) | t,
        f & d == f ==> (a | b | c | ((d & !f) | t) | e | g) == ((a | b | c | d | e | g) & !f) | t,
        f & e == f ==> (a | b | c | d | ((e & !f) | t) | g) == ((a | b | c | d | e | g) & !f) | t,
        f & g == f ==> (a | b | c | d | e | ((g & !f) | t)) == ((a | b | c | d | e | g) & !f) | t,
        f & a == f ==> ((a & !f) | b | c | d | (e | t) | g) == ((a | b | c | d | e | g) & !f) | t,
{
}

/// Both cross-disjointness shapes of a move: destination `t` taken away
/// from the other side, or a fresh destination `d` with the other side
/// losing some square `c`.
pub proof fn lemma_cross_move(w: u64, o: u64, f: u64, t: u64, d: u64, c: u64)
    by (bit_vector)
    requires
        w & o == 0,
    ensures
        ((w & !f) | t) & (o & !t) == 0,
        d & o == 0 ==> ((w & !f) | d) & (o & !c) == 0,
{
}

/// A king reduced to a single bit is captured exactly when the mover's
/// pieces land on its square.
pub proof fn lemma_king_capture_iff(w: u64, f: u64, t: u64, k: u64)
    by (bit_vector)
    requires
        is_single_bit(t),
        is_single_bit(k),
        w & k == 0,
    ensures
        ((((w & !f) | t) & k) != 0) <==> (k & !t == 0),
{
}

/// With the mover's pieces known, the other side after the move is what
/// remains of it outside the mover's new occupancy.
pub proof fn lemma_capture_remainder(w: u64, o: u64, f: u64, t: u64)
    by (bit_vector)
    requires
        w & o == 0,
    ensures
        o & !((w & !f) | t) == o & !t,
{
}

} // verus!

verus! {

/// Bitwise conjunction commutes.
pub proof fn lemma_and_comm(a: u64, b: u64)
    by (bit_vector)
    ensures
        a & b == b & a,
{
}

/// Identities of zero, self-complement and absorption.
pub proof fn lemma_basic_bits(a: u64, t: u64)
    by (bit_vector)
    ensures
        0u64 & a == 0,
        a & 0u64 == 0,
        0u64 | a == a,
        a | 0u64 == a,
        a & !a == 0,
        t & (a | t) == t,
        (a | t) & t == t,
{
}

/// Setting a fresh bit keeps a bitboard disjoint from one without it.
pub proof fn lemma_bits_add(a: u64, b: u64, t: u64)
    by (bit_vector)
    requires
        a & b == 0,
        t & b == 0,
    ensures
        (a | t) & b == 0,
        b & (a | t) == 0,
{
}

/// Clearing `t` from the first of six bitboards clears it from the union
/// when the other five never held it.
pub proof fn lemma_union_clear_first(a: u64, b: u64, c: u64, d: u64, e: u64, g: u64, t: u64)
    by (bit_vector)
    requires
        t & b == 0,
        t & c == 0,
        t & d == 0,
        t & e == 0,
        t & g == 0,
    ensures
        ((a & !t) | b | c | d | e | g) == (a | b | c | d | e | g) & !t,
{
}

/// Disjointness from a two-way union, in both orientations.
pub proof fn lemma_pair_disjoint(x: u64, p: u64, q: u64)
    by (bit_vector)
    requires
        x & (p | q) == 0 || (p | q) & x == 0,
    ensures
        x & p == 0,
        x & q == 0,
        p & x == 0,
        q & x == 0,
{
}

/// A union of two bitboards disjoint from a third is disjoint from it.
pub proof fn lemma_or_disjoint(x: u64, y: u64, o: u64)
    by (bit_vector)
    requires
        x & o == 0,
        y & o == 0,
    ensures
        (x | y) & o == 0,
        o & (x | y) == 0,
{
}

/// Which rank masks a single bit with a known index lies on, and that a
/// double-push destination is never a promotion square.
pub proof fn lemma_rank_bits(j: u64)
    by (bit_vector)
    requires
        j < 64,
    ensures
        24 <= j < 32 ==> (1u64 << j) & 0xFF000000u64 == (1u64 << j),
        32 <= j < 40 ==> (1u64 << j) & 0xFF00000000u64 == (1u64 << j),
        24 <= j < 40 ==> (1u64 << j) & 0xFF00000000000000u64 == 0,
        24 <= j < 40 ==> (1u64 << j) & 0xFFu64 == 0,
{
}

/// Shifting a single bit on the middle ranks one rank up or down gives a
/// single bit again.
pub proof fn lemma_ep_shift(c: u64)
    by (bit_vector)
    requires
        is_single_bit(c),
    ensures
        c & 0xFF00000000u64 == c ==> is_single_bit(c << 8u64) && (c << 8u64) & c == 0,
        c & 0xFF000000u64 == c ==> is_single_bit(c >> 8u64) && (c >> 8u64) & c == 0,
{
}

} // verus!

verus! {

/// A mask contained in any one of six bitboards is contained in their
/// union, in both orientations.
pub proof fn lemma_subset_of_part6(f: u64, a: u64, b: u64, c: u64, d: u64, e: u64, g: u64)
    by (bit_vector)
    requires
        f & a == f || f & b == f || f & c == f || f & d == f || f & e == f || f & g == f,
    ensures
        (a | b | c | d | e | g) & f == f,
        f & (a | b | c | d | e | g) == f,
{
}

} // verus!

verus! {

/// If a union meets `t` but five parts miss it, the last part meets it.
pub proof fn lemma_union_last(a: u64, b: u64, c: u64, d: u64, e: u64, g: u64, t: u64)
    by (bit_vector)
    requires
        (a | b | c | d | e | g) & t != 0,
        a & t == 0,
        b & t == 0,
        c & t == 0,
        d & t == 0,
        e & t == 0,
    ensures
        g & t != 0,
{
}

} // verus!

verus! {

/// A promoted queen's bitboard stays disjoint from a pawn bitboard that
/// lost its promoting pawn.
pub proof fn lemma_promo_pair(p: u64, q: u64, f: u64, t: u64)
    by (bit_vector)
    requires
        p & q == 0,
        t & p == 0,
    ensures
        (p & !f) & (q | t) == 0,
        (q | t) & (p & !f) == 0,
{
}

/// A mask on a middle rank is neither on the first nor on the last rank,
/// and conjunction is idempotent.
pub proof fn lemma_rank_mask_facts(t: u64)
    by (bit_vector)
    ensures
        t & 0xFF000000u64 == t ==> t & 0xFF00000000000000u64 == 0,
        t & 0xFF00000000u64 == t ==> t & 0xFFu64 == 0,
        t & t == t,
{
}

} // verus!

verus! {

/// Shifting a single bit eight positions moves its index by eight.
pub proof fn lemma_sq_shift(j: u64)
    by (bit_vector)
    requires
        j < 64,
    ensures
        j < 56 ==> (1u64 << j) << 8u64 == 1u64 << ((j + 8) as u64),
        j >= 8 ==> (1u64 << j) >> 8u64 == 1u64 << ((j - 8) as u64),
{
}

} // verus!
