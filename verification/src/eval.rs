//! Static evaluation: material counts and pawn-structure penalties, from
//! white's perspective. Scores are integers in half-pawn units, so the
//! half-point pawn-structure penalty stays exact: a score of `2` is one
//! pawn's worth of advantage.
use vstd::prelude::*;
use crate::bits::{pop64, popcount64, lemma_pop64_le};
use crate::board::{ChessBoard, all_pieces_spec};

verus! {

/// Doubled white pawns: squares where a white pawn stands directly above
/// another white pawn.
pub open spec fn white_doubled_spec(b: ChessBoard) -> nat {
    pop64(b.white_pawns & (b.white_pawns << 8u64))
}

/// Doubled black pawns: squares where a black pawn stands directly below
/// another black pawn.
pub open spec fn black_doubled_spec(b: ChessBoard) -> nat {
    pop64(b.black_pawns & (b.black_pawns >> 8u64))
}

/// Occupied squares directly ahead of a white pawn.
pub open spec fn white_blocked_spec(b: ChessBoard) -> nat {
    pop64(all_pieces_spec(b) & (b.white_pawns << 8u64))
}

/// Occupied squares directly ahead of a black pawn.
pub open spec fn black_blocked_spec(b: ChessBoard) -> nat {
    pop64(all_pieces_spec(b) & (b.black_pawns >> 8u64))
}

/// The static score in half-pawn units: twice the weighted material
/// difference (king 200, queen 9, rook 5, bishop and knight 3, pawn 1),
/// minus the doubled-pawn and blocked-pawn count differences, which each
/// weigh half a pawn.
pub open spec fn eval_spec(b: ChessBoard) -> int {
    2 * (200 * (pop64(b.white_king) - pop64(b.black_king)) + 9 * (pop64(b.white_queens) - pop64(
        b.black_queens,
    )) + 5 * (pop64(b.white_rooks) - pop64(b.black_rooks)) + 3 * (pop64(b.white_bishops) - pop64(
        b.black_bishops,
    ) + pop64(b.white_knights) - pop64(b.black_knights)) + (pop64(b.white_pawns) - pop64(
        b.black_pawns,
    ))) - ((white_doubled_spec(b) - black_doubled_spec(b)) + (white_blocked_spec(b)
        - black_blocked_spec(b)))
}

impl ChessBoard {
    /// Counts white's doubled pawns.
    pub fn whiteDoubledPawns(&self) -> (r: u32)
        ensures
            r == white_doubled_spec(*self),
    {
        let pawns = self.white_pawns;
        let mask = pawns << 8u64;
        popcount64(pawns & mask)
    }

    /// Counts black's doubled pawns.
    pub fn blackDoubledPawns(&self) -> (r: u32)
        ensures
            r == black_doubled_spec(*self),
    {
        let pawns = self.black_pawns;
        let mask = pawns >> 8u64;
        popcount64(pawns & mask)
    }

    /// Counts the occupied squares directly ahead of white's pawns.
    pub fn whiteBlockedPawns(&self) -> (r: u32)
        ensures
            r == white_blocked_spec(*self),
    {
        let pawns = self.white_pawns;
        let mask = pawns << 8u64;
        popcount64(self.get_all_pieces() & mask)
    }

    /// Counts the occupied squares directly ahead of black's pawns.
    pub fn blackBlockedPawns(&self) -> (r: u32)
        ensures
            r == black_blocked_spec(*self),
    {
        let pawns = self.black_pawns;
        let mask = pawns >> 8u64;
        popcount64(self.get_all_pieces() & mask)
    }

    /// The static score of this position in half-pawn units.
    pub fn evaluate(&self) -> (r: i64)
        ensures
            r == eval_spec(*self),
            -30000 <= r <= 30000,
    {
        proof {
            lemma_pop64_le(self.white_king);
            lemma_pop64_le(self.black_king);
            lemma_pop64_le(self.white_queens);
            lemma_pop64_le(self.black_queens);
            lemma_pop64_le(self.white_rooks);
            lemma_pop64_le(self.black_rooks);
            lemma_pop64_le(self.white_bishops);
            lemma_pop64_le(self.black_bishops);
            lemma_pop64_le(self.white_knights);
            lemma_pop64_le(self.black_knights);
            lemma_pop64_le(self.white_pawns);
            lemma_pop64_le(self.black_pawns);
            lemma_pop64_le(self.white_pawns & (self.white_pawns << 8u64));
            lemma_pop64_le(self.black_pawns & (self.black_pawns >> 8u64));
            lemma_pop64_le(all_pieces_spec(*self) & (self.white_pawns << 8u64));
            lemma_pop64_le(all_pieces_spec(*self) & (self.black_pawns >> 8u64));
        }
        let wk = popcount64(self.white_king) as i64;
        let bk = popcount64(self.black_king) as i64;
        let wq = popcount64(self.white_queens) as i64;
        let bq = popcount64(self.black_queens) as i64;
        let wr = popcount64(self.white_rooks) as i64;
        let br = popcount64(self.black_rooks) as i64;
        let wb = popcount64(self.white_bishops) as i64;
        let bb = popcount64(self.black_bishops) as i64;
        let wn = popcount64(self.white_knights) as i64;
        let bn = popcount64(self.black_knights) as i64;
        let wp = popcount64(self.white_pawns) as i64;
        let bp = popcount64(self.black_pawns) as i64;
        let w_doubled = self.whiteDoubledPawns() as i64;
        let b_doubled = self.blackDoubledPawns() as i64;
        let w_blocked = self.whiteBlockedPawns() as i64;
        let b_blocked = self.blackBlockedPawns() as i64;
        2 * (200 * (wk - bk) + 9 * (wq - bq) + 5 * (wr - br) + 3 * (wb - bb + wn - bn) + (wp - bp))
            - ((w_doubled - b_doubled) + (w_blocked - b_blocked))
    }
}

} // verus!

verus! {

/// The static score always fits comfortably in the search's value range.
pub proof fn lemma_eval_spec_bounds(b: ChessBoard)
    ensures
        -30000 <= eval_spec(b) <= 30000,
{
    lemma_pop64_le(b.white_king);
    lemma_pop64_le(b.black_king);
    lemma_pop64_le(b.white_queens);
    lemma_pop64_le(b.black_queens);
    lemma_pop64_le(b.white_rooks);
    lemma_pop64_le(b.black_rooks);
    lemma_pop64_le(b.white_bishops);
    lemma_pop64_le(b.black_bishops);
    lemma_pop64_le(b.white_knights);
    lemma_pop64_le(b.black_knights);
    lemma_pop64_le(b.white_pawns);
    lemma_pop64_le(b.black_pawns);
    lemma_pop64_le(b.white_pawns & (b.white_pawns << 8u64));
    lemma_pop64_le(b.black_pawns & (b.black_pawns >> 8u64));
    lemma_pop64_le(all_pieces_spec(b) & (b.white_pawns << 8u64));
    lemma_pop64_le(all_pieces_spec(b) & (b.black_pawns >> 8u64));
}

} // verus!
