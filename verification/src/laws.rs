//! The engine's stated invariants, proved once over the specification
//! functions of the move-generation core: every generated move flips the
//! side to move, never captures the mover's own piece, preserves the
//! pairwise disjointness of the twelve bitboards, handles the kings and the
//! double-push record as the data model demands, and captures away from its
//! destination square only en passant.
use vstd::prelude::*;
use crate::bits::{pop64, is_single_bit, sq_bit, occ_at, lemma_single_bit_shl, lemma_single_and,
    lemma_single_eq, lemma_subset_disjoint, lemma_clear_noop, lemma_union_disjoint6, lemma_bits_move, lemma_bits_clear, lemma_clear6_pairwise,
    lemma_union_clear6, lemma_union_move_pos, lemma_cross_move, lemma_king_capture_iff,
    lemma_capture_remainder, lemma_and_comm, lemma_basic_bits, lemma_bits_add,
    lemma_union_clear_first, lemma_pair_disjoint, lemma_or_disjoint,
    lemma_rank_bits, lemma_ep_shift, lemma_subset_of_part6, lemma_union_last, lemma_promo_pair, lemma_rank_mask_facts, lemma_sq_shift, lemma_pop64_set, lemma_pop64_clear};
use crate::legality::{white_in_check, black_in_check, survivors_white, survivors_black,
    legal_spec};
use crate::board::{ChessBoard, Constants, wf_board, white_bb_disjoint, black_bb_disjoint,
    all_white_spec, all_black_spec, all_pieces_spec, own_all, opp_all, own_pawns, own_king,
    opp_king, init_board};
use crate::movegen::{Piece, own_bb, lemma_rank_file, with_own_bb, spec_capture_at, spec_move, spec_pawn_move,
    spec_ep_move, spec_castle, castle_ok, castle_seq, piece_step, knight_sq_moves,
    king_step_sq_moves, ray_moves, slider_sq_moves, pawn_cap, pawn_fwd, pawn_dbl, pawn_ep,
    pawn_sq_moves, sq_moves, scan_moves, king_moves_spec, pseudo_moves, attack_mask, SQ_A1, SQ_B1,
    SQ_C1, SQ_D1, SQ_E1, SQ_F1, SQ_G1, SQ_H1, SQ_A8, SQ_B8, SQ_C8, SQ_D8, SQ_E8, SQ_F8, SQ_G8,
    SQ_H8};

verus! {

/// What one generated candidate move guarantees about the resulting
/// position `q`, relative to the position `b` it was generated from, for the
/// side `white`. The side to move flips; the double-push record is either
/// empty or one of the mover's pawns on its double-push rank; the castling
/// bookkeeping flags are monotone. On a well-formed board, well-formedness
/// is preserved, the mover's piece count is unchanged (no self-capture), the
/// mover's king survives, the opposing king is untouched unless it was
/// captured on its own square, and without a recorded double push every
/// capture happens on the mover's destination square.
pub open spec fn move_ok(b: ChessBoard, white: bool, q: ChessBoard) -> bool {
    &&& q.white_to_move == !b.white_to_move
    &&& (q.prev_double_push_pawns != 0 ==> is_single_bit(q.prev_double_push_pawns)
        && q.prev_double_push_pawns & own_pawns(q, white) == q.prev_double_push_pawns && (if white {
        q.prev_double_push_pawns & 0xFF000000u64 == q.prev_double_push_pawns
    } else {
        q.prev_double_push_pawns & 0xFF00000000u64 == q.prev_double_push_pawns
    }))
    &&& (b.white_moved_king ==> q.white_moved_king)
    &&& (b.black_moved_king ==> q.black_moved_king)
    &&& (b.white_moved_A_rook ==> q.white_moved_A_rook)
    &&& (b.white_moved_H_rook ==> q.white_moved_H_rook)
    &&& (b.black_moved_A_rook ==> q.black_moved_A_rook)
    &&& (b.black_moved_H_rook ==> q.black_moved_H_rook)
    &&& (wf_board(b) ==> {
        &&& wf_board(q)
        &&& pop64(own_all(q, white)) == pop64(own_all(b, white))
        &&& (is_single_bit(own_king(b, white)) ==> is_single_bit(own_king(q, white)))
        &&& (is_single_bit(opp_king(b, white)) ==> (opp_king(q, white) == opp_king(b, white)
            || opp_king(q, white) == 0))
        &&& (is_single_bit(opp_king(b, white)) ==> ((opp_king(q, white) == 0) <==> (own_all(
            q,
            white,
        ) & opp_king(b, white) != 0)))
        &&& (b.prev_double_push_pawns == 0 ==> opp_all(q, white) == opp_all(b, white) & !own_all(
            q,
            white,
        ))
    })
}

/// Capturing on `t` clears that square from each bitboard of the captured
/// side and touches nothing else.
proof fn lemma_capture_fields(b: ChessBoard, white: bool, t: u64)
    requires
        is_single_bit(t),
        white ==> black_bb_disjoint(b),
        !white ==> white_bb_disjoint(b),
    ensures
        white ==> spec_capture_at(b, white, t) == (ChessBoard {
            black_pawns: b.black_pawns & !t,
            black_rooks: b.black_rooks & !t,
            black_knights: b.black_knights & !t,
            black_bishops: b.black_bishops & !t,
            black_queens: b.black_queens & !t,
            black_king: b.black_king & !t,
            ..b
        }),
        !white ==> spec_capture_at(b, white, t) == (ChessBoard {
            white_pawns: b.white_pawns & !t,
            white_rooks: b.white_rooks & !t,
            white_knights: b.white_knights & !t,
            white_bishops: b.white_bishops & !t,
            white_queens: b.white_queens & !t,
            white_king: b.white_king & !t,
            ..b
        }),
{
    if white {
        if all_black_spec(b) & t != 0 {
            lemma_and_comm(all_black_spec(b), t);
            if b.black_pawns & t != 0 {
                lemma_and_comm(b.black_pawns, t);
                lemma_single_and(t, b.black_pawns);
                lemma_subset_disjoint(t, b.black_pawns, b.black_rooks);
                lemma_subset_disjoint(t, b.black_pawns, b.black_knights);
                lemma_subset_disjoint(t, b.black_pawns, b.black_bishops);
                lemma_subset_disjoint(t, b.black_pawns, b.black_queens);
                lemma_subset_disjoint(t, b.black_pawns, b.black_king);
                lemma_and_comm(b.black_rooks, t);
                lemma_clear_noop(b.black_rooks, t);
                lemma_and_comm(b.black_knights, t);
                lemma_clear_noop(b.black_knights, t);
                lemma_and_comm(b.black_bishops, t);
                lemma_clear_noop(b.black_bishops, t);
                lemma_and_comm(b.black_queens, t);
                lemma_clear_noop(b.black_queens, t);
                lemma_and_comm(b.black_king, t);
                lemma_clear_noop(b.black_king, t);
            } else if b.black_rooks & t != 0 {
                lemma_and_comm(b.black_rooks, t);
                lemma_single_and(t, b.black_rooks);
                lemma_and_comm(b.black_pawns, b.black_rooks);
                lemma_subset_disjoint(t, b.black_rooks, b.black_pawns);
                lemma_subset_disjoint(t, b.black_rooks, b.black_knights);
                lemma_subset_disjoint(t, b.black_rooks, b.black_bishops);
                lemma_subset_disjoint(t, b.black_rooks, b.black_queens);
                lemma_subset_disjoint(t, b.black_rooks, b.black_king);
                lemma_and_comm(b.black_pawns, t);
                lemma_clear_noop(b.black_pawns, t);
                lemma_and_comm(b.black_knights, t);
                lemma_clear_noop(b.black_knights, t);
                lemma_and_comm(b.black_bishops, t);
                lemma_clear_noop(b.black_bishops, t);
                lemma_and_comm(b.black_queens, t);
                lemma_clear_noop(b.black_queens, t);
                lemma_and_comm(b.black_king, t);
                lemma_clear_noop(b.black_king, t);
            } else if b.black_knights & t != 0 {
                lemma_and_comm(b.black_knights, t);
                lemma_single_and(t, b.black_knights);
                lemma_and_comm(b.black_pawns, b.black_knights);
                lemma_and_comm(b.black_rooks, b.black_knights);
                lemma_subset_disjoint(t, b.black_knights, b.black_pawns);
                lemma_subset_disjoint(t, b.black_knights, b.black_rooks);
                lemma_subset_disjoint(t, b.black_knights, b.black_bishops);
                lemma_subset_disjoint(t, b.black_knights, b.black_queens);
                lemma_subset_disjoint(t, b.black_knights, b.black_king);
                lemma_and_comm(b.black_pawns, t);
                lemma_clear_noop(b.black_pawns, t);
                lemma_and_comm(b.black_rooks, t);
                lemma_clear_noop(b.black_rooks, t);
                lemma_and_comm(b.black_bishops, t);
                lemma_clear_noop(b.black_bishops, t);
                lemma_and_comm(b.black_queens, t);
                lemma_clear_noop(b.black_queens, t);
                lemma_and_comm(b.black_king, t);
                lemma_clear_noop(b.black_king, t);
            } else if b.black_bishops & t != 0 {
                lemma_and_comm(b.black_bishops, t);
                lemma_single_and(t, b.black_bishops);
                lemma_and_comm(b.black_pawns, b.black_bishops);
                lemma_and_comm(b.black_rooks, b.black_bishops);
                lemma_and_comm(b.black_knights, b.black_bishops);
                lemma_subset_disjoint(t, b.black_bishops, b.black_pawns);
                lemma_subset_disjoint(t, b.black_bishops, b.black_rooks);
                lemma_subset_disjoint(t, b.black_bishops, b.black_knights);
                lemma_subset_disjoint(t, b.black_bishops, b.black_queens);
                lemma_subset_disjoint(t, b.black_bishops, b.black_king);
                lemma_and_comm(b.black_pawns, t);
                lemma_clear_noop(b.black_pawns, t);
                lemma_and_comm(b.black_rooks, t);
                lemma_clear_noop(b.black_rooks, t);
                lemma_and_comm(b.black_knights, t);
                lemma_clear_noop(b.black_knights, t);
                lemma_and_comm(b.black_queens, t);
                lemma_clear_noop(b.black_queens, t);
                lemma_and_comm(b.black_king, t);
                lemma_clear_noop(b.black_king, t);
            } else if b.black_queens & t != 0 {
                lemma_and_comm(b.black_queens, t);
                lemma_single_and(t, b.black_queens);
                lemma_and_comm(b.black_pawns, b.black_queens);
                lemma_and_comm(b.black_rooks, b.black_queens);
                lemma_and_comm(b.black_knights, b.black_queens);
                lemma_and_comm(b.black_bishops, b.black_queens);
                lemma_subset_disjoint(t, b.black_queens, b.black_pawns);
                lemma_subset_disjoint(t, b.black_queens, b.black_rooks);
                lemma_subset_disjoint(t, b.black_queens, b.black_knights);
                lemma_subset_disjoint(t, b.black_queens, b.black_bishops);
                lemma_subset_disjoint(t, b.black_queens, b.black_king);
                lemma_and_comm(b.black_pawns, t);
                lemma_clear_noop(b.black_pawns, t);
                lemma_and_comm(b.black_rooks, t);
                lemma_clear_noop(b.black_rooks, t);
                lemma_and_comm(b.black_knights, t);
                lemma_clear_noop(b.black_knights, t);
                lemma_and_comm(b.black_bishops, t);
                lemma_clear_noop(b.black_bishops, t);
                lemma_and_comm(b.black_king, t);
                lemma_clear_noop(b.black_king, t);
            } else {
                lemma_union_last(
                    b.black_pawns,
                    b.black_rooks,
                    b.black_knights,
                    b.black_bishops,
                    b.black_queens,
                    b.black_king,
                    t,
                );
                lemma_and_comm(b.black_king, t);
                lemma_single_and(t, b.black_king);
                lemma_and_comm(b.black_pawns, b.black_king);
                lemma_and_comm(b.black_rooks, b.black_king);
                lemma_and_comm(b.black_knights, b.black_king);
                lemma_and_comm(b.black_bishops, b.black_king);
                lemma_and_comm(b.black_queens, b.black_king);
                lemma_subset_disjoint(t, b.black_king, b.black_pawns);
                lemma_subset_disjoint(t, b.black_king, b.black_rooks);
                lemma_subset_disjoint(t, b.black_king, b.black_knights);
                lemma_subset_disjoint(t, b.black_king, b.black_bishops);
                lemma_subset_disjoint(t, b.black_king, b.black_queens);
                lemma_and_comm(b.black_pawns, t);
                lemma_clear_noop(b.black_pawns, t);
                lemma_and_comm(b.black_rooks, t);
                lemma_clear_noop(b.black_rooks, t);
                lemma_and_comm(b.black_knights, t);
                lemma_clear_noop(b.black_knights, t);
                lemma_and_comm(b.black_bishops, t);
                lemma_clear_noop(b.black_bishops, t);
                lemma_and_comm(b.black_queens, t);
                lemma_clear_noop(b.black_queens, t);
            }
        } else {
            lemma_and_comm(all_black_spec(b), t);
            lemma_union_disjoint6(
                b.black_pawns,
                b.black_rooks,
                b.black_knights,
                b.black_bishops,
                b.black_queens,
                b.black_king,
                t,
            );
            lemma_and_comm(b.black_pawns, t);
            lemma_clear_noop(b.black_pawns, t);
            lemma_and_comm(b.black_rooks, t);
            lemma_clear_noop(b.black_rooks, t);
            lemma_and_comm(b.black_knights, t);
            lemma_clear_noop(b.black_knights, t);
            lemma_and_comm(b.black_bishops, t);
            lemma_clear_noop(b.black_bishops, t);
            lemma_and_comm(b.black_queens, t);
            lemma_clear_noop(b.black_queens, t);
            lemma_and_comm(b.black_king, t);
            lemma_clear_noop(b.black_king, t);
        }
    } else {
        if all_white_spec(b) & t != 0 {
            lemma_and_comm(all_white_spec(b), t);
            if b.white_pawns & t != 0 {
                lemma_and_comm(b.white_pawns, t);
                lemma_single_and(t, b.white_pawns);
                lemma_subset_disjoint(t, b.white_pawns, b.white_rooks);
                lemma_subset_disjoint(t, b.white_pawns, b.white_knights);
                lemma_subset_disjoint(t, b.white_pawns, b.white_bishops);
                lemma_subset_disjoint(t, b.white_pawns, b.white_queens);
                lemma_subset_disjoint(t, b.white_pawns, b.white_king);
                lemma_and_comm(b.white_rooks, t);
                lemma_clear_noop(b.white_rooks, t);
                lemma_and_comm(b.white_knights, t);
                lemma_clear_noop(b.white_knights, t);
                lemma_and_comm(b.white_bishops, t);
                lemma_clear_noop(b.white_bishops, t);
                lemma_and_comm(b.white_queens, t);
                lemma_clear_noop(b.white_queens, t);
                lemma_and_comm(b.white_king, t);
                lemma_clear_noop(b.white_king, t);
            } else if b.white_rooks & t != 0 {
                lemma_and_comm(b.white_rooks, t);
                lemma_single_and(t, b.white_rooks);
                lemma_and_comm(b.white_pawns, b.white_rooks);
                lemma_subset_disjoint(t, b.white_rooks, b.white_pawns);
                lemma_subset_disjoint(t, b.white_rooks, b.white_knights);
                lemma_subset_disjoint(t, b.white_rooks, b.white_bishops);
                lemma_subset_disjoint(t, b.white_rooks, b.white_queens);
                lemma_subset_disjoint(t, b.white_rooks, b.white_king);
                lemma_and_comm(b.white_pawns, t);
                lemma_clear_noop(b.white_pawns, t);
                lemma_and_comm(b.white_knights, t);
                lemma_clear_noop(b.white_knights, t);
                lemma_and_comm(b.white_bishops, t);
                lemma_clear_noop(b.white_bishops, t);
                lemma_and_comm(b.white_queens, t);
                lemma_clear_noop(b.white_queens, t);
                lemma_and_comm(b.white_king, t);
                lemma_clear_noop(b.white_king, t);
            } else if b.white_knights & t != 0 {
                lemma_and_comm(b.white_knights, t);
                lemma_single_and(t, b.white_knights);
                lemma_and_comm(b.white_pawns, b.white_knights);
                lemma_and_comm(b.white_rooks, b.white_knights);
                lemma_subset_disjoint(t, b.white_knights, b.white_pawns);
                lemma_subset_disjoint(t, b.white_knights, b.white_rooks);
                lemma_subset_disjoint(t, b.white_knights, b.white_bishops);
                lemma_subset_disjoint(t, b.white_knights, b.white_queens);
                lemma_subset_disjoint(t, b.white_knights, b.white_king);
                lemma_and_comm(b.white_pawns, t);
                lemma_clear_noop(b.white_pawns, t);
                lemma_and_comm(b.white_rooks, t);
                lemma_clear_noop(b.white_rooks, t);
                lemma_and_comm(b.white_bishops, t);
                lemma_clear_noop(b.white_bishops, t);
                lemma_and_comm(b.white_queens, t);
                lemma_clear_noop(b.white_queens, t);
                lemma_and_comm(b.white_king, t);
                lemma_clear_noop(b.white_king, t);
            } else if b.white_bishops & t != 0 {
                lemma_and_comm(b.white_bishops, t);
                lemma_single_and(t, b.white_bishops);
                lemma_and_comm(b.white_pawns, b.white_bishops);
                lemma_and_comm(b.white_rooks, b.white_bishops);
                lemma_and_comm(b.white_knights, b.white_bishops);
                lemma_subset_disjoint(t, b.white_bishops, b.white_pawns);
                lemma_subset_disjoint(t, b.white_bishops, b.white_rooks);
                lemma_subset_disjoint(t, b.white_bishops, b.white_knights);
                lemma_subset_disjoint(t, b.white_bishops, b.white_queens);
                lemma_subset_disjoint(t, b.white_bishops, b.white_king);
                lemma_and_comm(b.white_pawns, t);
                lemma_clear_noop(b.white_pawns, t);
                lemma_and_comm(b.white_rooks, t);
                lemma_clear_noop(b.white_rooks, t);
                lemma_and_comm(b.white_knights, t);
                lemma_clear_noop(b.white_knights, t);
                lemma_and_comm(b.white_queens, t);
                lemma_clear_noop(b.white_queens, t);
                lemma_and_comm(b.white_king, t);
                lemma_clear_noop(b.white_king, t);
            } else if b.white_queens & t != 0 {
                lemma_and_comm(b.white_queens, t);
                lemma_single_and(t, b.white_queens);
                lemma_and_comm(b.white_pawns, b.white_queens);
                lemma_and_comm(b.white_rooks, b.white_queens);
                lemma_and_comm(b.white_knights, b.white_queens);
                lemma_and_comm(b.white_bishops, b.white_queens);
                lemma_subset_disjoint(t, b.white_queens, b.white_pawns);
                lemma_subset_disjoint(t, b.white_queens, b.white_rooks);
                lemma_subset_disjoint(t, b.white_queens, b.white_knights);
                lemma_subset_disjoint(t, b.white_queens, b.white_bishops);
                lemma_subset_disjoint(t, b.white_queens, b.white_king);
                lemma_and_comm(b.white_pawns, t);
                lemma_clear_noop(b.white_pawns, t);
                lemma_and_comm(b.white_rooks, t);
                lemma_clear_noop(b.white_rooks, t);
                lemma_and_comm(b.white_knights, t);
                lemma_clear_noop(b.white_knights, t);
                lemma_and_comm(b.white_bishops, t);
                lemma_clear_noop(b.white_bishops, t);
                lemma_and_comm(b.white_king, t);
                lemma_clear_noop(b.white_king, t);
            } else {
                lemma_union_last(
                    b.white_pawns,
                    b.white_rooks,
                    b.white_knights,
                    b.white_bishops,
                    b.white_queens,
                    b.white_king,
                    t,
                );
                lemma_and_comm(b.white_king, t);
                lemma_single_and(t, b.white_king);
                lemma_and_comm(b.white_pawns, b.white_king);
                lemma_and_comm(b.white_rooks, b.white_king);
                lemma_and_comm(b.white_knights, b.white_king);
                lemma_and_comm(b.white_bishops, b.white_king);
                lemma_and_comm(b.white_queens, b.white_king);
                lemma_subset_disjoint(t, b.white_king, b.white_pawns);
                lemma_subset_disjoint(t, b.white_king, b.white_rooks);
                lemma_subset_disjoint(t, b.white_king, b.white_knights);
                lemma_subset_disjoint(t, b.white_king, b.white_bishops);
                lemma_subset_disjoint(t, b.white_king, b.white_queens);
                lemma_and_comm(b.white_pawns, t);
                lemma_clear_noop(b.white_pawns, t);
                lemma_and_comm(b.white_rooks, t);
                lemma_clear_noop(b.white_rooks, t);
                lemma_and_comm(b.white_knights, t);
                lemma_clear_noop(b.white_knights, t);
                lemma_and_comm(b.white_bishops, t);
                lemma_clear_noop(b.white_bishops, t);
                lemma_and_comm(b.white_queens, t);
                lemma_clear_noop(b.white_queens, t);
            }
        } else {
            lemma_and_comm(all_white_spec(b), t);
            lemma_union_disjoint6(
                b.white_pawns,
                b.white_rooks,
                b.white_knights,
                b.white_bishops,
                b.white_queens,
                b.white_king,
                t,
            );
            lemma_and_comm(b.white_pawns, t);
            lemma_clear_noop(b.white_pawns, t);
            lemma_and_comm(b.white_rooks, t);
            lemma_clear_noop(b.white_rooks, t);
            lemma_and_comm(b.white_knights, t);
            lemma_clear_noop(b.white_knights, t);
            lemma_and_comm(b.white_bishops, t);
            lemma_clear_noop(b.white_bishops, t);
            lemma_and_comm(b.white_queens, t);
            lemma_clear_noop(b.white_queens, t);
            lemma_and_comm(b.white_king, t);
            lemma_clear_noop(b.white_king, t);
        }
    }
}

} // verus!

verus! {


/// The well-formedness core for white moves: one ordinary move
/// built under the generator guards satisfies every clause of [`move_ok`].
#[verifier::rlimit(100)]
proof fn lemma_move_ok_move_white(b: ChessBoard, p: Piece, f: u64, t: u64)
    requires
        own_bb(b, true, p) & f != 0,
        is_single_bit(f),
        is_single_bit(t),
        own_all(b, true) & t == 0,
    ensures
        move_ok(b, true, spec_move(b, true, p, f, t)),
{
    let white = true;
    let q = spec_move(b, white, p, f, t);
    let own = all_white_spec(b);
    let opp = all_black_spec(b);
    match p {
        Piece::Pawn => {
            if wf_board(b) {
                lemma_and_comm(b.white_pawns, f);
                lemma_single_and(f, b.white_pawns);
                lemma_subset_of_part6(f, b.white_pawns, b.white_rooks, b.white_knights, b.white_bishops, b.white_queens, b.white_king);
                lemma_and_comm(own, t);
                lemma_and_comm(all_white_spec(b), all_black_spec(b));
                lemma_union_disjoint6(b.white_pawns, b.white_rooks, b.white_knights, b.white_bishops, b.white_queens, b.white_king, t);
                lemma_capture_fields(with_own_bb(b, white, p, (own_bb(b, white, p) & !f) | t), white, t);
                lemma_bits_move(b.white_pawns, b.white_rooks, f, t);
                lemma_bits_move(b.white_pawns, b.white_knights, f, t);
                lemma_bits_move(b.white_pawns, b.white_bishops, f, t);
                lemma_bits_move(b.white_pawns, b.white_queens, f, t);
                lemma_bits_move(b.white_pawns, b.white_king, f, t);
                lemma_bits_move(b.white_rooks, b.white_knights, f, t);
                lemma_bits_move(b.white_rooks, b.white_bishops, f, t);
                lemma_bits_move(b.white_rooks, b.white_queens, f, t);
                lemma_bits_move(b.white_rooks, b.white_king, f, t);
                lemma_bits_move(b.white_knights, b.white_bishops, f, t);
                lemma_bits_move(b.white_knights, b.white_queens, f, t);
                lemma_bits_move(b.white_knights, b.white_king, f, t);
                lemma_bits_move(b.white_bishops, b.white_queens, f, t);
                lemma_bits_move(b.white_bishops, b.white_king, f, t);
                lemma_bits_move(b.white_queens, b.white_king, f, t);
                lemma_clear6_pairwise(b.black_pawns, b.black_rooks, b.black_knights, b.black_bishops, b.black_queens, b.black_king, t);
                lemma_union_move_pos(b.white_pawns, b.white_rooks, b.white_knights, b.white_bishops, b.white_queens, b.white_king, f, t);
                lemma_union_clear6(b.black_pawns, b.black_rooks, b.black_knights, b.black_bishops, b.black_queens, b.black_king, t);
                lemma_cross_move(own, opp, f, t, 0, 0);
                lemma_and_comm((own & !f) | t, opp & !t);
                lemma_pop64_clear(own, f);
                lemma_bits_clear(own, t, f, t);
                lemma_pop64_set(own & !f, t);
                lemma_capture_remainder(own, opp, f, t);
                lemma_union_disjoint6(b.black_pawns, b.black_rooks, b.black_knights, b.black_bishops, b.black_queens, b.black_king, own);
                if is_single_bit(b.black_king) {
                    lemma_king_capture_iff(own, f, t, b.black_king);
                    if b.black_king & t == 0 {
                        lemma_clear_noop(b.black_king, t);
                    } else {
                        lemma_and_comm(b.black_king, t);
                        lemma_single_and(t, b.black_king);
                        lemma_single_eq(t, b.black_king);
                        lemma_basic_bits(b.black_king, t);
                    }
                }
                assert(wf_board(q));
            }
            assert(move_ok(b, white, q));
        },
        Piece::Rook => {
            if wf_board(b) {
                lemma_and_comm(b.white_rooks, f);
                lemma_single_and(f, b.white_rooks);
                lemma_subset_of_part6(f, b.white_pawns, b.white_rooks, b.white_knights, b.white_bishops, b.white_queens, b.white_king);
                lemma_and_comm(own, t);
                lemma_and_comm(all_white_spec(b), all_black_spec(b));
                lemma_union_disjoint6(b.white_pawns, b.white_rooks, b.white_knights, b.white_bishops, b.white_queens, b.white_king, t);
                lemma_capture_fields(with_own_bb(b, white, p, (own_bb(b, white, p) & !f) | t), white, t);
                lemma_bits_move(b.white_pawns, b.white_rooks, f, t);
                lemma_bits_move(b.white_pawns, b.white_knights, f, t);
                lemma_bits_move(b.white_pawns, b.white_bishops, f, t);
                lemma_bits_move(b.white_pawns, b.white_queens, f, t);
                lemma_bits_move(b.white_pawns, b.white_king, f, t);
                lemma_bits_move(b.white_rooks, b.white_knights, f, t);
                lemma_bits_move(b.white_rooks, b.white_bishops, f, t);
                lemma_bits_move(b.white_rooks, b.white_queens, f, t);
                lemma_bits_move(b.white_rooks, b.white_king, f, t);
                lemma_bits_move(b.white_knights, b.white_bishops, f, t);
                lemma_bits_move(b.white_knights, b.white_queens, f, t);
                lemma_bits_move(b.white_knights, b.white_king, f, t);
                lemma_bits_move(b.white_bishops, b.white_queens, f, t);
                lemma_bits_move(b.white_bishops, b.white_king, f, t);
                lemma_bits_move(b.white_queens, b.white_king, f, t);
                lemma_clear6_pairwise(b.black_pawns, b.black_rooks, b.black_knights, b.black_bishops, b.black_queens, b.black_king, t);
                lemma_union_move_pos(b.white_pawns, b.white_rooks, b.white_knights, b.white_bishops, b.white_queens, b.white_king, f, t);
                lemma_union_clear6(b.black_pawns, b.black_rooks, b.black_knights, b.black_bishops, b.black_queens, b.black_king, t);
                lemma_cross_move(own, opp, f, t, 0, 0);
                lemma_and_comm((own & !f) | t, opp & !t);
                lemma_pop64_clear(own, f);
                lemma_bits_clear(own, t, f, t);
                lemma_pop64_set(own & !f, t);
                lemma_capture_remainder(own, opp, f, t);
                lemma_union_disjoint6(b.black_pawns, b.black_rooks, b.black_knights, b.black_bishops, b.black_queens, b.black_king, own);
                if is_single_bit(b.black_king) {
                    lemma_king_capture_iff(own, f, t, b.black_king);
                    if b.black_king & t == 0 {
                        lemma_clear_noop(b.black_king, t);
                    } else {
                        lemma_and_comm(b.black_king, t);
                        lemma_single_and(t, b.black_king);
                        lemma_single_eq(t, b.black_king);
                        lemma_basic_bits(b.black_king, t);
                    }
                }
                assert(wf_board(q));
            }
            assert(move_ok(b, white, q));
        },
        Piece::Knight => {
            if wf_board(b) {
                lemma_and_comm(b.white_knights, f);
                lemma_single_and(f, b.white_knights);
                lemma_subset_of_part6(f, b.white_pawns, b.white_rooks, b.white_knights, b.white_bishops, b.white_queens, b.white_king);
                lemma_and_comm(own, t);
                lemma_and_comm(all_white_spec(b), all_black_spec(b));
                lemma_union_disjoint6(b.white_pawns, b.white_rooks, b.white_knights, b.white_bishops, b.white_queens, b.white_king, t);
                lemma_capture_fields(with_own_bb(b, white, p, (own_bb(b, white, p) & !f) | t), white, t);
                lemma_bits_move(b.white_pawns, b.white_rooks, f, t);
                lemma_bits_move(b.white_pawns, b.white_knights, f, t);
                lemma_bits_move(b.white_pawns, b.white_bishops, f, t);
                lemma_bits_move(b.white_pawns, b.white_queens, f, t);
                lemma_bits_move(b.white_pawns, b.white_king, f, t);
                lemma_bits_move(b.white_rooks, b.white_knights, f, t);
                lemma_bits_move(b.white_rooks, b.white_bishops, f, t);
                lemma_bits_move(b.white_rooks, b.white_queens, f, t);
                lemma_bits_move(b.white_rooks, b.white_king, f, t);
                lemma_bits_move(b.white_knights, b.white_bishops, f, t);
                lemma_bits_move(b.white_knights, b.white_queens, f, t);
                lemma_bits_move(b.white_knights, b.white_king, f, t);
                lemma_bits_move(b.white_bishops, b.white_queens, f, t);
                lemma_bits_move(b.white_bishops, b.white_king, f, t);
                lemma_bits_move(b.white_queens, b.white_king, f, t);
                lemma_clear6_pairwise(b.black_pawns, b.black_rooks, b.black_knights, b.black_bishops, b.black_queens, b.black_king, t);
                lemma_union_move_pos(b.white_pawns, b.white_rooks, b.white_knights, b.white_bishops, b.white_queens, b.white_king, f, t);
                lemma_union_clear6(b.black_pawns, b.black_rooks, b.black_knights, b.black_bishops, b.black_queens, b.black_king, t);
                lemma_cross_move(own, opp, f, t, 0, 0);
                lemma_and_comm((own & !f) | t, opp & !t);
                lemma_pop64_clear(own, f);
                lemma_bits_clear(own, t, f, t);
                lemma_pop64_set(own & !f, t);
                lemma_capture_remainder(own, opp, f, t);
                lemma_union_disjoint6(b.black_pawns, b.black_rooks, b.black_knights, b.black_bishops, b.black_queens, b.black_king, own);
                if is_single_bit(b.black_king) {
                    lemma_king_capture_iff(own, f, t, b.black_king);
                    if b.black_king & t == 0 {
                        lemma_clear_noop(b.black_king, t);
                    } else {
                        lemma_and_comm(b.black_king, t);
                        lemma_single_and(t, b.black_king);
                        lemma_single_eq(t, b.black_king);
                        lemma_basic_bits(b.black_king, t);
                    }
                }
                assert(wf_board(q));
            }
            assert(move_ok(b, white, q));
        },
        Piece::Bishop => {
            if wf_board(b) {
                lemma_and_comm(b.white_bishops, f);
                lemma_single_and(f, b.white_bishops);
                lemma_subset_of_part6(f, b.white_pawns, b.white_rooks, b.white_knights, b.white_bishops, b.white_queens, b.white_king);
                lemma_and_comm(own, t);
                lemma_and_comm(all_white_spec(b), all_black_spec(b));
                lemma_union_disjoint6(b.white_pawns, b.white_rooks, b.white_knights, b.white_bishops, b.white_queens, b.white_king, t);
                lemma_capture_fields(with_own_bb(b, white, p, (own_bb(b, white, p) & !f) | t), white, t);
                lemma_bits_move(b.white_pawns, b.white_rooks, f, t);
                lemma_bits_move(b.white_pawns, b.white_knights, f, t);
                lemma_bits_move(b.white_pawns, b.white_bishops, f, t);
                lemma_bits_move(b.white_pawns, b.white_queens, f, t);
                lemma_bits_move(b.white_pawns, b.white_king, f, t);
                lemma_bits_move(b.white_rooks, b.white_knights, f, t);
                lemma_bits_move(b.white_rooks, b.white_bishops, f, t);
                lemma_bits_move(b.white_rooks, b.white_queens, f, t);
                lemma_bits_move(b.white_rooks, b.white_king, f, t);
                lemma_bits_move(b.white_knights, b.white_bishops, f, t);
                lemma_bits_move(b.white_knights, b.white_queens, f, t);
                lemma_bits_move(b.white_knights, b.white_king, f, t);
                lemma_bits_move(b.white_bishops, b.white_queens, f, t);
                lemma_bits_move(b.white_bishops, b.white_king, f, t);
                lemma_bits_move(b.white_queens, b.white_king, f, t);
                lemma_clear6_pairwise(b.black_pawns, b.black_rooks, b.black_knights, b.black_bishops, b.black_queens, b.black_king, t);
                lemma_union_move_pos(b.white_pawns, b.white_rooks, b.white_knights, b.white_bishops, b.white_queens, b.white_king, f, t);
                lemma_union_clear6(b.black_pawns, b.black_rooks, b.black_knights, b.black_bishops, b.black_queens, b.black_king, t);
                lemma_cross_move(own, opp, f, t, 0, 0);
                lemma_and_comm((own & !f) | t, opp & !t);
                lemma_pop64_clear(own, f);
                lemma_bits_clear(own, t, f, t);
                lemma_pop64_set(own & !f, t);
                lemma_capture_remainder(own, opp, f, t);
                lemma_union_disjoint6(b.black_pawns, b.black_rooks, b.black_knights, b.black_bishops, b.black_queens, b.black_king, own);
                if is_single_bit(b.black_king) {
                    lemma_king_capture_iff(own, f, t, b.black_king);
                    if b.black_king & t == 0 {
                        lemma_clear_noop(b.black_king, t);
                    } else {
                        lemma_and_comm(b.black_king, t);
                        lemma_single_and(t, b.black_king);
                        lemma_single_eq(t, b.black_king);
                        lemma_basic_bits(b.black_king, t);
                    }
                }
                assert(wf_board(q));
            }
            assert(move_ok(b, white, q));
        },
        Piece::Queen => {
            if wf_board(b) {
                lemma_and_comm(b.white_queens, f);
                lemma_single_and(f, b.white_queens);
                lemma_subset_of_part6(f, b.white_pawns, b.white_rooks, b.white_knights, b.white_bishops, b.white_queens, b.white_king);
                lemma_and_comm(own, t);
                lemma_and_comm(all_white_spec(b), all_black_spec(b));
                lemma_union_disjoint6(b.white_pawns, b.white_rooks, b.white_knights, b.white_bishops, b.white_queens, b.white_king, t);
                lemma_capture_fields(with_own_bb(b, white, p, (own_bb(b, white, p) & !f) | t), white, t);
                lemma_bits_move(b.white_pawns, b.white_rooks, f, t);
                lemma_bits_move(b.white_pawns, b.white_knights, f, t);
                lemma_bits_move(b.white_pawns, b.white_bishops, f, t);
                lemma_bits_move(b.white_pawns, b.white_queens, f, t);
                lemma_bits_move(b.white_pawns, b.white_king, f, t);
                lemma_bits_move(b.white_rooks, b.white_knights, f, t);
                lemma_bits_move(b.white_rooks, b.white_bishops, f, t);
                lemma_bits_move(b.white_rooks, b.white_queens, f, t);
                lemma_bits_move(b.white_rooks, b.white_king, f, t);
                lemma_bits_move(b.white_knights, b.white_bishops, f, t);
                lemma_bits_move(b.white_knights, b.white_queens, f, t);
                lemma_bits_move(b.white_knights, b.white_king, f, t);
                lemma_bits_move(b.white_bishops, b.white_queens, f, t);
                lemma_bits_move(b.white_bishops, b.white_king, f, t);
                lemma_bits_move(b.white_queens, b.white_king, f, t);
                lemma_clear6_pairwise(b.black_pawns, b.black_rooks, b.black_knights, b.black_bishops, b.black_queens, b.black_king, t);
                lemma_union_move_pos(b.white_pawns, b.white_rooks, b.white_knights, b.white_bishops, b.white_queens, b.white_king, f, t);
                lemma_union_clear6(b.black_pawns, b.black_rooks, b.black_knights, b.black_bishops, b.black_queens, b.black_king, t);
                lemma_cross_move(own, opp, f, t, 0, 0);
                lemma_and_comm((own & !f) | t, opp & !t);
                lemma_pop64_clear(own, f);
                lemma_bits_clear(own, t, f, t);
                lemma_pop64_set(own & !f, t);
                lemma_capture_remainder(own, opp, f, t);
                lemma_union_disjoint6(b.black_pawns, b.black_rooks, b.black_knights, b.black_bishops, b.black_queens, b.black_king, own);
                if is_single_bit(b.black_king) {
                    lemma_king_capture_iff(own, f, t, b.black_king);
                    if b.black_king & t == 0 {
                        lemma_clear_noop(b.black_king, t);
                    } else {
                        lemma_and_comm(b.black_king, t);
                        lemma_single_and(t, b.black_king);
                        lemma_single_eq(t, b.black_king);
                        lemma_basic_bits(b.black_king, t);
                    }
                }
                assert(wf_board(q));
            }
            assert(move_ok(b, white, q));
        },
        Piece::King => {
            if wf_board(b) {
                lemma_and_comm(b.white_king, f);
                lemma_single_and(f, b.white_king);
                lemma_subset_of_part6(f, b.white_pawns, b.white_rooks, b.white_knights, b.white_bishops, b.white_queens, b.white_king);
                lemma_and_comm(own, t);
                lemma_and_comm(all_white_spec(b), all_black_spec(b));
                lemma_union_disjoint6(b.white_pawns, b.white_rooks, b.white_knights, b.white_bishops, b.white_queens, b.white_king, t);
                lemma_capture_fields(with_own_bb(b, white, p, (own_bb(b, white, p) & !f) | t), white, t);
                lemma_bits_move(b.white_pawns, b.white_rooks, f, t);
                lemma_bits_move(b.white_pawns, b.white_knights, f, t);
                lemma_bits_move(b.white_pawns, b.white_bishops, f, t);
                lemma_bits_move(b.white_pawns, b.white_queens, f, t);
                lemma_bits_move(b.white_pawns, b.white_king, f, t);
                lemma_bits_move(b.white_rooks, b.white_knights, f, t);
                lemma_bits_move(b.white_rooks, b.white_bishops, f, t);
                lemma_bits_move(b.white_rooks, b.white_queens, f, t);
                lemma_bits_move(b.white_rooks, b.white_king, f, t);
                lemma_bits_move(b.white_knights, b.white_bishops, f, t);
                lemma_bits_move(b.white_knights, b.white_queens, f, t);
                lemma_bits_move(b.white_knights, b.white_king, f, t);
                lemma_bits_move(b.white_bishops, b.white_queens, f, t);
                lemma_bits_move(b.white_bishops, b.white_king, f, t);
                lemma_bits_move(b.white_queens, b.white_king, f, t);
                lemma_clear6_pairwise(b.black_pawns, b.black_rooks, b.black_knights, b.black_bishops, b.black_queens, b.black_king, t);
                lemma_union_move_pos(b.white_pawns, b.white_rooks, b.white_knights, b.white_bishops, b.white_queens, b.white_king, f, t);
                lemma_union_clear6(b.black_pawns, b.black_rooks, b.black_knights, b.black_bishops, b.black_queens, b.black_king, t);
                lemma_cross_move(own, opp, f, t, 0, 0);
                lemma_and_comm((own & !f) | t, opp & !t);
                lemma_pop64_clear(own, f);
                lemma_bits_clear(own, t, f, t);
                lemma_pop64_set(own & !f, t);
                lemma_capture_remainder(own, opp, f, t);
                lemma_union_disjoint6(b.black_pawns, b.black_rooks, b.black_knights, b.black_bishops, b.black_queens, b.black_king, own);
                if is_single_bit(b.white_king) {
                    lemma_single_eq(f, b.white_king);
                    lemma_basic_bits(b.white_king, t);
                    lemma_basic_bits(t, t);
                }
                if is_single_bit(b.black_king) {
                    lemma_king_capture_iff(own, f, t, b.black_king);
                    if b.black_king & t == 0 {
                        lemma_clear_noop(b.black_king, t);
                    } else {
                        lemma_and_comm(b.black_king, t);
                        lemma_single_and(t, b.black_king);
                        lemma_single_eq(t, b.black_king);
                        lemma_basic_bits(b.black_king, t);
                    }
                }
                assert(wf_board(q));
            }
            assert(move_ok(b, white, q));
        },
    }
}

/// The well-formedness core for black moves: one ordinary move
/// built under the generator guards satisfies every clause of [`move_ok`].
#[verifier::rlimit(100)]
proof fn lemma_move_ok_move_black(b: ChessBoard, p: Piece, f: u64, t: u64)
    requires
        own_bb(b, false, p) & f != 0,
        is_single_bit(f),
        is_single_bit(t),
        own_all(b, false) & t == 0,
    ensures
        move_ok(b, false, spec_move(b, false, p, f, t)),
{
    let white = false;
    let q = spec_move(b, white, p, f, t);
    let own = all_black_spec(b);
    let opp = all_white_spec(b);
    match p {
        Piece::Pawn => {
            if wf_board(b) {
                lemma_and_comm(b.black_pawns, f);
                lemma_single_and(f, b.black_pawns);
                lemma_subset_of_part6(f, b.black_pawns, b.black_rooks, b.black_knights, b.black_bishops, b.black_queens, b.black_king);
                lemma_and_comm(own, t);
                lemma_and_comm(all_white_spec(b), all_black_spec(b));
                lemma_union_disjoint6(b.black_pawns, b.black_rooks, b.black_knights, b.black_bishops, b.black_queens, b.black_king, t);
                lemma_capture_fields(with_own_bb(b, white, p, (own_bb(b, white, p) & !f) | t), white, t);
                lemma_bits_move(b.black_pawns, b.black_rooks, f, t);
                lemma_bits_move(b.black_pawns, b.black_knights, f, t);
                lemma_bits_move(b.black_pawns, b.black_bishops, f, t);
                lemma_bits_move(b.black_pawns, b.black_queens, f, t);
                lemma_bits_move(b.black_pawns, b.black_king, f, t);
                lemma_bits_move(b.black_rooks, b.black_knights, f, t);
                lemma_bits_move(b.black_rooks, b.black_bishops, f, t);
                lemma_bits_move(b.black_rooks, b.black_queens, f, t);
                lemma_bits_move(b.black_rooks, b.black_king, f, t);
                lemma_bits_move(b.black_knights, b.black_bishops, f, t);
                lemma_bits_move(b.black_knights, b.black_queens, f, t);
                lemma_bits_move(b.black_knights, b.black_king, f, t);
                lemma_bits_move(b.black_bishops, b.black_queens, f, t);
                lemma_bits_move(b.black_bishops, b.black_king, f, t);
                lemma_bits_move(b.black_queens, b.black_king, f, t);
                lemma_clear6_pairwise(b.white_pawns, b.white_rooks, b.white_knights, b.white_bishops, b.white_queens, b.white_king, t);
                lemma_union_move_pos(b.black_pawns, b.black_rooks, b.black_knights, b.black_bishops, b.black_queens, b.black_king, f, t);
                lemma_union_clear6(b.white_pawns, b.white_rooks, b.white_knights, b.white_bishops, b.white_queens, b.white_king, t);
                lemma_cross_move(own, opp, f, t, 0, 0);
                lemma_and_comm((own & !f) | t, opp & !t);
                lemma_pop64_clear(own, f);
                lemma_bits_clear(own, t, f, t);
                lemma_pop64_set(own & !f, t);
                lemma_capture_remainder(own, opp, f, t);
                lemma_union_disjoint6(b.white_pawns, b.white_rooks, b.white_knights, b.white_bishops, b.white_queens, b.white_king, own);
                if is_single_bit(b.white_king) {
                    lemma_king_capture_iff(own, f, t, b.white_king);
                    if b.white_king & t == 0 {
                        lemma_clear_noop(b.white_king, t);
                    } else {
                        lemma_and_comm(b.white_king, t);
                        lemma_single_and(t, b.white_king);
                        lemma_single_eq(t, b.white_king);
                        lemma_basic_bits(b.white_king, t);
                    }
                }
                assert(wf_board(q));
            }
            assert(move_ok(b, white, q));
        },
        Piece::Rook => {
            if wf_board(b) {
                lemma_and_comm(b.black_rooks, f);
                lemma_single_and(f, b.black_rooks);
                lemma_subset_of_part6(f, b.black_pawns, b.black_rooks, b.black_knights, b.black_bishops, b.black_queens, b.black_king);
                lemma_and_comm(own, t);
                lemma_and_comm(all_white_spec(b), all_black_spec(b));
                lemma_union_disjoint6(b.black_pawns, b.black_rooks, b.black_knights, b.black_bishops, b.black_queens, b.black_king, t);
                lemma_capture_fields(with_own_bb(b, white, p, (own_bb(b, white, p) & !f) | t), white, t);
                lemma_bits_move(b.black_pawns, b.black_rooks, f, t);
                lemma_bits_move(b.black_pawns, b.black_knights, f, t);
                lemma_bits_move(b.black_pawns, b.black_bishops, f, t);
                lemma_bits_move(b.black_pawns, b.black_queens, f, t);
                lemma_bits_move(b.black_pawns, b.black_king, f, t);
                lemma_bits_move(b.black_rooks, b.black_knights, f, t);
                lemma_bits_move(b.black_rooks, b.black_bishops, f, t);
                lemma_bits_move(b.black_rooks, b.black_queens, f, t);
                lemma_bits_move(b.black_rooks, b.black_king, f, t);
                lemma_bits_move(b.black_knights, b.black_bishops, f, t);
                lemma_bits_move(b.black_knights, b.black_queens, f, t);
                lemma_bits_move(b.black_knights, b.black_king, f, t);
                lemma_bits_move(b.black_bishops, b.black_queens, f, t);
                lemma_bits_move(b.black_bishops, b.black_king, f, t);
                lemma_bits_move(b.black_queens, b.black_king, f, t);
                lemma_clear6_pairwise(b.white_pawns, b.white_rooks, b.white_knights, b.white_bishops, b.white_queens, b.white_king, t);
                lemma_union_move_pos(b.black_pawns, b.black_rooks, b.black_knights, b.black_bishops, b.black_queens, b.black_king, f, t);
                lemma_union_clear6(b.white_pawns, b.white_rooks, b.white_knights, b.white_bishops, b.white_queens, b.white_king, t);
                lemma_cross_move(own, opp, f, t, 0, 0);
                lemma_and_comm((own & !f) | t, opp & !t);
                lemma_pop64_clear(own, f);
                lemma_bits_clear(own, t, f, t);
                lemma_pop64_set(own & !f, t);
                lemma_capture_remainder(own, opp, f, t);
                lemma_union_disjoint6(b.white_pawns, b.white_rooks, b.white_knights, b.white_bishops, b.white_queens, b.white_king, own);
                if is_single_bit(b.white_king) {
                    lemma_king_capture_iff(own, f, t, b.white_king);
                    if b.white_king & t == 0 {
                        lemma_clear_noop(b.white_king, t);
                    } else {
                        lemma_and_comm(b.white_king, t);
                        lemma_single_and(t, b.white_king);
                        lemma_single_eq(t, b.white_king);
                        lemma_basic_bits(b.white_king, t);
                    }
                }
                assert(wf_board(q));
            }
            assert(move_ok(b, white, q));
        },
        Piece::Knight => {
            if wf_board(b) {
                lemma_and_comm(b.black_knights, f);
                lemma_single_and(f, b.black_knights);
                lemma_subset_of_part6(f, b.black_pawns, b.black_rooks, b.black_knights, b.black_bishops, b.black_queens, b.black_king);
                lemma_and_comm(own, t);
                lemma_and_comm(all_white_spec(b), all_black_spec(b));
                lemma_union_disjoint6(b.black_pawns, b.black_rooks, b.black_knights, b.black_bishops, b.black_queens, b.black_king, t);
                lemma_capture_fields(with_own_bb(b, white, p, (own_bb(b, white, p) & !f) | t), white, t);
                lemma_bits_move(b.black_pawns, b.black_rooks, f, t);
                lemma_bits_move(b.black_pawns, b.black_knights, f, t);
                lemma_bits_move(b.black_pawns, b.black_bishops, f, t);
                lemma_bits_move(b.black_pawns, b.black_queens, f, t);
                lemma_bits_move(b.black_pawns, b.black_king, f, t);
                lemma_bits_move(b.black_rooks, b.black_knights, f, t);
                lemma_bits_move(b.black_rooks, b.black_bishops, f, t);
                lemma_bits_move(b.black_rooks, b.black_queens, f, t);
                lemma_bits_move(b.black_rooks, b.black_king, f, t);
                lemma_bits_move(b.black_knights, b.black_bishops, f, t);
                lemma_bits_move(b.black_knights, b.black_queens, f, t);
                lemma_bits_move(b.black_knights, b.black_king, f, t);
                lemma_bits_move(b.black_bishops, b.black_queens, f, t);
                lemma_bits_move(b.black_bishops, b.black_king, f, t);
                lemma_bits_move(b.black_queens, b.black_king, f, t);
                lemma_clear6_pairwise(b.white_pawns, b.white_rooks, b.white_knights, b.white_bishops, b.white_queens, b.white_king, t);
                lemma_union_move_pos(b.black_pawns, b.black_rooks, b.black_knights, b.black_bishops, b.black_queens, b.black_king, f, t);
                lemma_union_clear6(b.white_pawns, b.white_rooks, b.white_knights, b.white_bishops, b.white_queens, b.white_king, t);
                lemma_cross_move(own, opp, f, t, 0, 0);
                lemma_and_comm((own & !f) | t, opp & !t);
                lemma_pop64_clear(own, f);
                lemma_bits_clear(own, t, f, t);
                lemma_pop64_set(own & !f, t);
                lemma_capture_remainder(own, opp, f, t);
                lemma_union_disjoint6(b.white_pawns, b.white_rooks, b.white_knights, b.white_bishops, b.white_queens, b.white_king, own);
                if is_single_bit(b.white_king) {
                    lemma_king_capture_iff(own, f, t, b.white_king);
                    if b.white_king & t == 0 {
                        lemma_clear_noop(b.white_king, t);
                    } else {
                        lemma_and_comm(b.white_king, t);
                        lemma_single_and(t, b.white_king);
                        lemma_single_eq(t, b.white_king);
                        lemma_basic_bits(b.white_king, t);
                    }
                }
                assert(wf_board(q));
            }
            assert(move_ok(b, white, q));
        },
        Piece::Bishop => {
            if wf_board(b) {
                lemma_and_comm(b.black_bishops, f);
                lemma_single_and(f, b.black_bishops);
                lemma_subset_of_part6(f, b.black_pawns, b.black_rooks, b.black_knights, b.black_bishops, b.black_queens, b.black_king);
                lemma_and_comm(own, t);
                lemma_and_comm(all_white_spec(b), all_black_spec(b));
                lemma_union_disjoint6(b.black_pawns, b.black_rooks, b.black_knights, b.black_bishops, b.black_queens, b.black_king, t);
                lemma_capture_fields(with_own_bb(b, white, p, (own_bb(b, white, p) & !f) | t), white, t);
                lemma_bits_move(b.black_pawns, b.black_rooks, f, t);
                lemma_bits_move(b.black_pawns, b.black_knights, f, t);
                lemma_bits_move(b.black_pawns, b.black_bishops, f, t);
                lemma_bits_move(b.black_pawns, b.black_queens, f, t);
                lemma_bits_move(b.black_pawns, b.black_king, f, t);
                lemma_bits_move(b.black_rooks, b.black_knights, f, t);
                lemma_bits_move(b.black_rooks, b.black_bishops, f, t);
                lemma_bits_move(b.black_rooks, b.black_queens, f, t);
                lemma_bits_move(b.black_rooks, b.black_king, f, t);
                lemma_bits_move(b.black_knights, b.black_bishops, f, t);
                lemma_bits_move(b.black_knights, b.black_queens, f, t);
                lemma_bits_move(b.black_knights, b.black_king, f, t);
                lemma_bits_move(b.black_bishops, b.black_queens, f, t);
                lemma_bits_move(b.black_bishops, b.black_king, f, t);
                lemma_bits_move(b.black_queens, b.black_king, f, t);
                lemma_clear6_pairwise(b.white_pawns, b.white_rooks, b.white_knights, b.white_bishops, b.white_queens, b.white_king, t);
                lemma_union_move_pos(b.black_pawns, b.black_rooks, b.black_knights, b.black_bishops, b.black_queens, b.black_king, f, t);
                lemma_union_clear6(b.white_pawns, b.white_rooks, b.white_knights, b.white_bishops, b.white_queens, b.white_king, t);
                lemma_cross_move(own, opp, f, t, 0, 0);
                lemma_and_comm((own & !f) | t, opp & !t);
                lemma_pop64_clear(own, f);
                lemma_bits_clear(own, t, f, t);
                lemma_pop64_set(own & !f, t);
                lemma_capture_remainder(own, opp, f, t);
                lemma_union_disjoint6(b.white_pawns, b.white_rooks, b.white_knights, b.white_bishops, b.white_queens, b.white_king, own);
                if is_single_bit(b.white_king) {
                    lemma_king_capture_iff(own, f, t, b.white_king);
                    if b.white_king & t == 0 {
                        lemma_clear_noop(b.white_king, t);
                    } else {
                        lemma_and_comm(b.white_king, t);
                        lemma_single_and(t, b.white_king);
                        lemma_single_eq(t, b.white_king);
                        lemma_basic_bits(b.white_king, t);
                    }
                }
                assert(wf_board(q));
            }
            assert(move_ok(b, white, q));
        },
        Piece::Queen => {
            if wf_board(b) {
                lemma_and_comm(b.black_queens, f);
                lemma_single_and(f, b.black_queens);
                lemma_subset_of_part6(f, b.black_pawns, b.black_rooks, b.black_knights, b.black_bishops, b.black_queens, b.black_king);
                lemma_and_comm(own, t);
                lemma_and_comm(all_white_spec(b), all_black_spec(b));
                lemma_union_disjoint6(b.black_pawns, b.black_rooks, b.black_knights, b.black_bishops, b.black_queens, b.black_king, t);
                lemma_capture_fields(with_own_bb(b, white, p, (own_bb(b, white, p) & !f) | t), white, t);
                lemma_bits_move(b.black_pawns, b.black_rooks, f, t);
                lemma_bits_move(b.black_pawns, b.black_knights, f, t);
                lemma_bits_move(b.black_pawns, b.black_bishops, f, t);
                lemma_bits_move(b.black_pawns, b.black_queens, f, t);
                lemma_bits_move(b.black_pawns, b.black_king, f, t);
                lemma_bits_move(b.black_rooks, b.black_knights, f, t);
                lemma_bits_move(b.black_rooks, b.black_bishops, f, t);
                lemma_bits_move(b.black_rooks, b.black_queens, f, t);
                lemma_bits_move(b.black_rooks, b.black_king, f, t);
                lemma_bits_move(b.black_knights, b.black_bishops, f, t);
                lemma_bits_move(b.black_knights, b.black_queens, f, t);
                lemma_bits_move(b.black_knights, b.black_king, f, t);
                lemma_bits_move(b.black_bishops, b.black_queens, f, t);
                lemma_bits_move(b.black_bishops, b.black_king, f, t);
                lemma_bits_move(b.black_queens, b.black_king, f, t);
                lemma_clear6_pairwise(b.white_pawns, b.white_rooks, b.white_knights, b.white_bishops, b.white_queens, b.white_king, t);
                lemma_union_move_pos(b.black_pawns, b.black_rooks, b.black_knights, b.black_bishops, b.black_queens, b.black_king, f, t);
                lemma_union_clear6(b.white_pawns, b.white_rooks, b.white_knights, b.white_bishops, b.white_queens, b.white_king, t);
                lemma_cross_move(own, opp, f, t, 0, 0);
                lemma_and_comm((own & !f) | t, opp & !t);
                lemma_pop64_clear(own, f);
                lemma_bits_clear(own, t, f, t);
                lemma_pop64_set(own & !f, t);
                lemma_capture_remainder(own, opp, f, t);
                lemma_union_disjoint6(b.white_pawns, b.white_rooks, b.white_knights, b.white_bishops, b.white_queens, b.white_king, own);
                if is_single_bit(b.white_king) {
                    lemma_king_capture_iff(own, f, t, b.white_king);
                    if b.white_king & t == 0 {
                        lemma_clear_noop(b.white_king, t);
                    } else {
                        lemma_and_comm(b.white_king, t);
                        lemma_single_and(t, b.white_king);
                        lemma_single_eq(t, b.white_king);
                        lemma_basic_bits(b.white_king, t);
                    }
                }
                assert(wf_board(q));
            }
            assert(move_ok(b, white, q));
        },
        Piece::King => {
            if wf_board(b) {
                lemma_and_comm(b.black_king, f);
                lemma_single_and(f, b.black_king);
                lemma_subset_of_part6(f, b.black_pawns, b.black_rooks, b.black_knights, b.black_bishops, b.black_queens, b.black_king);
                lemma_and_comm(own, t);
                lemma_and_comm(all_white_spec(b), all_black_spec(b));
                lemma_union_disjoint6(b.black_pawns, b.black_rooks, b.black_knights, b.black_bishops, b.black_queens, b.black_king, t);
                lemma_capture_fields(with_own_bb(b, white, p, (own_bb(b, white, p) & !f) | t), white, t);
                lemma_bits_move(b.black_pawns, b.black_rooks, f, t);
                lemma_bits_move(b.black_pawns, b.black_knights, f, t);
                lemma_bits_move(b.black_pawns, b.black_bishops, f, t);
                lemma_bits_move(b.black_pawns, b.black_queens, f, t);
                lemma_bits_move(b.black_pawns, b.black_king, f, t);
                lemma_bits_move(b.black_rooks, b.black_knights, f, t);
                lemma_bits_move(b.black_rooks, b.black_bishops, f, t);
                lemma_bits_move(b.black_rooks, b.black_queens, f, t);
                lemma_bits_move(b.black_rooks, b.black_king, f, t);
                lemma_bits_move(b.black_knights, b.black_bishops, f, t);
                lemma_bits_move(b.black_knights, b.black_queens, f, t);
                lemma_bits_move(b.black_knights, b.black_king, f, t);
                lemma_bits_move(b.black_bishops, b.black_queens, f, t);
                lemma_bits_move(b.black_bishops, b.black_king, f, t);
                lemma_bits_move(b.black_queens, b.black_king, f, t);
                lemma_clear6_pairwise(b.white_pawns, b.white_rooks, b.white_knights, b.white_bishops, b.white_queens, b.white_king, t);
                lemma_union_move_pos(b.black_pawns, b.black_rooks, b.black_knights, b.black_bishops, b.black_queens, b.black_king, f, t);
                lemma_union_clear6(b.white_pawns, b.white_rooks, b.white_knights, b.white_bishops, b.white_queens, b.white_king, t);
                lemma_cross_move(own, opp, f, t, 0, 0);
                lemma_and_comm((own & !f) | t, opp & !t);
                lemma_pop64_clear(own, f);
                lemma_bits_clear(own, t, f, t);
                lemma_pop64_set(own & !f, t);
                lemma_capture_remainder(own, opp, f, t);
                lemma_union_disjoint6(b.white_pawns, b.white_rooks, b.white_knights, b.white_bishops, b.white_queens, b.white_king, own);
                if is_single_bit(b.black_king) {
                    lemma_single_eq(f, b.black_king);
                    lemma_basic_bits(b.black_king, t);
                    lemma_basic_bits(t, t);
                }
                if is_single_bit(b.white_king) {
                    lemma_king_capture_iff(own, f, t, b.white_king);
                    if b.white_king & t == 0 {
                        lemma_clear_noop(b.white_king, t);
                    } else {
                        lemma_and_comm(b.white_king, t);
                        lemma_single_and(t, b.white_king);
                        lemma_single_eq(t, b.white_king);
                        lemma_basic_bits(b.white_king, t);
                    }
                }
                assert(wf_board(q));
            }
            assert(move_ok(b, white, q));
        },
    }
}

/// One ordinary move built under the generator guards satisfies every
/// clause of [`move_ok`].
proof fn lemma_move_ok_move(b: ChessBoard, white: bool, p: Piece, f: u64, t: u64)
    ensures
        own_bb(b, white, p) & f != 0 && is_single_bit(f) && is_single_bit(t) && own_all(b, white)
            & t == 0 ==> move_ok(b, white, spec_move(b, white, p, f, t)),
{
    if own_bb(b, white, p) & f != 0 && is_single_bit(f) && is_single_bit(t) && own_all(b, white)
        & t == 0 {
        if white {
            lemma_move_ok_move_white(b, p, f, t);
        } else {
            lemma_move_ok_move_black(b, p, f, t);
        }
    }
}

} // verus!

verus! {

/// One pawn move built under the generator guards — a capture onto an
/// opposing piece or a push onto an empty square, queening on the last rank,
/// recording a double push — satisfies every clause of [`move_ok`].
#[verifier::rlimit(100)]
proof fn lemma_move_ok_pawn_white(b: ChessBoard, f: u64, t: u64, dbl: bool)
    requires
        own_pawns(b, true) & f != 0,
        is_single_bit(f),
        is_single_bit(t),
        opp_all(b, true) & t != 0 || all_pieces_spec(b) & t == 0,
        dbl ==> all_pieces_spec(b) & t == 0 && t & 0xFF000000u64 == t,
    ensures
        move_ok(b, true, spec_pawn_move(b, true, f, t, dbl)),
{
    let q = spec_pawn_move(b, true, f, t, dbl);
    let own = all_white_spec(b);
    let opp = all_black_spec(b);
    lemma_rank_mask_facts(t);
    if dbl {
        lemma_basic_bits(b.white_pawns & !f, t);
    }
    if wf_board(b) {
            lemma_and_comm(b.white_pawns, f);
            lemma_single_and(f, b.white_pawns);
            lemma_subset_of_part6(f, b.white_pawns, b.white_rooks, b.white_knights, b.white_bishops, b.white_queens, b.white_king);
            lemma_and_comm(all_white_spec(b), all_black_spec(b));
            if opp & t != 0 {
                lemma_and_comm(opp, t);
                lemma_single_and(t, opp);
                lemma_subset_disjoint(t, opp, own);
                lemma_and_comm(t, own);
            } else {
                lemma_pair_disjoint(t, own, opp);
            }
            lemma_and_comm(own, t);
            lemma_union_disjoint6(b.white_pawns, b.white_rooks, b.white_knights, b.white_bishops, b.white_queens, b.white_king, t);
        if t & Constants::EIGHT_RANK != 0 {
                lemma_capture_fields(ChessBoard { white_pawns: b.white_pawns & !f, white_queens: b.white_queens | t, ..b }, true, t);
                lemma_bits_clear(b.white_pawns, b.white_rooks, f, t);
                lemma_bits_clear(b.white_pawns, b.white_knights, f, t);
                lemma_bits_clear(b.white_pawns, b.white_bishops, f, t);
                lemma_bits_clear(b.white_pawns, b.white_king, f, t);
                lemma_promo_pair(b.white_pawns, b.white_queens, f, t);
                lemma_and_comm(b.white_rooks, t);
                lemma_and_comm(b.white_knights, t);
                lemma_and_comm(b.white_bishops, t);
                lemma_and_comm(b.white_king, t);
                lemma_and_comm(b.white_rooks, b.white_queens);
                lemma_and_comm(b.white_knights, b.white_queens);
                lemma_and_comm(b.white_bishops, b.white_queens);
                lemma_bits_add(b.white_queens, b.white_rooks, t);
                lemma_bits_add(b.white_queens, b.white_knights, t);
                lemma_bits_add(b.white_queens, b.white_bishops, t);
                lemma_bits_add(b.white_queens, b.white_king, t);
                lemma_union_move_pos(b.white_pawns, b.white_rooks, b.white_knights, b.white_bishops, b.white_queens, b.white_king, f, t);
        } else {
                lemma_capture_fields(ChessBoard { white_pawns: (b.white_pawns & !f) | t, ..b }, true, t);
                lemma_bits_move(b.white_pawns, b.white_rooks, f, t);
                lemma_bits_move(b.white_pawns, b.white_knights, f, t);
                lemma_bits_move(b.white_pawns, b.white_bishops, f, t);
                lemma_bits_move(b.white_pawns, b.white_queens, f, t);
                lemma_bits_move(b.white_pawns, b.white_king, f, t);
                lemma_union_move_pos(b.white_pawns, b.white_rooks, b.white_knights, b.white_bishops, b.white_queens, b.white_king, f, t);
        }
            lemma_clear6_pairwise(b.black_pawns, b.black_rooks, b.black_knights, b.black_bishops, b.black_queens, b.black_king, t);
            lemma_union_clear6(b.black_pawns, b.black_rooks, b.black_knights, b.black_bishops, b.black_queens, b.black_king, t);
            lemma_cross_move(own, opp, f, t, 0, 0);
            lemma_and_comm((own & !f) | t, opp & !t);
            lemma_pop64_clear(own, f);
            lemma_bits_clear(own, t, f, t);
            lemma_pop64_set(own & !f, t);
            lemma_capture_remainder(own, opp, f, t);
            lemma_union_disjoint6(b.black_pawns, b.black_rooks, b.black_knights, b.black_bishops, b.black_queens, b.black_king, own);
            if is_single_bit(b.black_king) {
                lemma_king_capture_iff(own, f, t, b.black_king);
                if b.black_king & t == 0 {
                    lemma_clear_noop(b.black_king, t);
                } else {
                    lemma_and_comm(b.black_king, t);
                    lemma_single_and(t, b.black_king);
                    lemma_single_eq(t, b.black_king);
                    lemma_basic_bits(b.black_king, t);
                }
            }
            assert(wf_board(q));
    }
    assert(move_ok(b, true, q));
}

/// One pawn move built under the generator guards — a capture onto an
/// opposing piece or a push onto an empty square, queening on the last rank,
/// recording a double push — satisfies every clause of [`move_ok`].
#[verifier::rlimit(100)]
proof fn lemma_move_ok_pawn_black(b: ChessBoard, f: u64, t: u64, dbl: bool)
    requires
        own_pawns(b, false) & f != 0,
        is_single_bit(f),
        is_single_bit(t),
        opp_all(b, false) & t != 0 || all_pieces_spec(b) & t == 0,
        dbl ==> all_pieces_spec(b) & t == 0 && t & 0xFF00000000u64 == t,
    ensures
        move_ok(b, false, spec_pawn_move(b, false, f, t, dbl)),
{
    let q = spec_pawn_move(b, false, f, t, dbl);
    let own = all_black_spec(b);
    let opp = all_white_spec(b);
    lemma_rank_mask_facts(t);
    if dbl {
        lemma_basic_bits(b.black_pawns & !f, t);
    }
    if wf_board(b) {
            lemma_and_comm(b.black_pawns, f);
            lemma_single_and(f, b.black_pawns);
            lemma_subset_of_part6(f, b.black_pawns, b.black_rooks, b.black_knights, b.black_bishops, b.black_queens, b.black_king);
            lemma_and_comm(all_white_spec(b), all_black_spec(b));
            if opp & t != 0 {
                lemma_and_comm(opp, t);
                lemma_single_and(t, opp);
                lemma_subset_disjoint(t, opp, own);
                lemma_and_comm(t, own);
            } else {
                lemma_pair_disjoint(t, opp, own);
            }
            lemma_and_comm(own, t);
            lemma_union_disjoint6(b.black_pawns, b.black_rooks, b.black_knights, b.black_bishops, b.black_queens, b.black_king, t);
        if t & Constants::FIRST_RANK != 0 {
                lemma_capture_fields(ChessBoard { black_pawns: b.black_pawns & !f, black_queens: b.black_queens | t, ..b }, false, t);
                lemma_bits_clear(b.black_pawns, b.black_rooks, f, t);
                lemma_bits_clear(b.black_pawns, b.black_knights, f, t);
                lemma_bits_clear(b.black_pawns, b.black_bishops, f, t);
                lemma_bits_clear(b.black_pawns, b.black_king, f, t);
                lemma_promo_pair(b.black_pawns, b.black_queens, f, t);
                lemma_and_comm(b.black_rooks, t);
                lemma_and_comm(b.black_knights, t);
                lemma_and_comm(b.black_bishops, t);
                lemma_and_comm(b.black_king, t);
                lemma_and_comm(b.black_rooks, b.black_queens);
                lemma_and_comm(b.black_knights, b.black_queens);
                lemma_and_comm(b.black_bishops, b.black_queens);
                lemma_bits_add(b.black_queens, b.black_rooks, t);
                lemma_bits_add(b.black_queens, b.black_knights, t);
                lemma_bits_add(b.black_queens, b.black_bishops, t);
                lemma_bits_add(b.black_queens, b.black_king, t);
                lemma_union_move_pos(b.black_pawns, b.black_rooks, b.black_knights, b.black_bishops, b.black_queens, b.black_king, f, t);
        } else {
                lemma_capture_fields(ChessBoard { black_pawns: (b.black_pawns & !f) | t, ..b }, false, t);
                lemma_bits_move(b.black_pawns, b.black_rooks, f, t);
                lemma_bits_move(b.black_pawns, b.black_knights, f, t);
                lemma_bits_move(b.black_pawns, b.black_bishops, f, t);
                lemma_bits_move(b.black_pawns, b.black_queens, f, t);
                lemma_bits_move(b.black_pawns, b.black_king, f, t);
                lemma_union_move_pos(b.black_pawns, b.black_rooks, b.black_knights, b.black_bishops, b.black_queens, b.black_king, f, t);
        }
            lemma_clear6_pairwise(b.white_pawns, b.white_rooks, b.white_knights, b.white_bishops, b.white_queens, b.white_king, t);
            lemma_union_clear6(b.white_pawns, b.white_rooks, b.white_knights, b.white_bishops, b.white_queens, b.white_king, t);
            lemma_cross_move(own, opp, f, t, 0, 0);
            lemma_and_comm((own & !f) | t, opp & !t);
            lemma_pop64_clear(own, f);
            lemma_bits_clear(own, t, f, t);
            lemma_pop64_set(own & !f, t);
            lemma_capture_remainder(own, opp, f, t);
            lemma_union_disjoint6(b.white_pawns, b.white_rooks, b.white_knights, b.white_bishops, b.white_queens, b.white_king, own);
            if is_single_bit(b.white_king) {
                lemma_king_capture_iff(own, f, t, b.white_king);
                if b.white_king & t == 0 {
                    lemma_clear_noop(b.white_king, t);
                } else {
                    lemma_and_comm(b.white_king, t);
                    lemma_single_and(t, b.white_king);
                    lemma_single_eq(t, b.white_king);
                    lemma_basic_bits(b.white_king, t);
                }
            }
            assert(wf_board(q));
    }
    assert(move_ok(b, false, q));
}

} // verus!

verus! {

/// One en passant capture built under the generator guards satisfies every
/// clause of [`move_ok`]: the pawn on `f` takes the opposing pawn on `csq`,
/// which the previous ply recorded as a double push, landing one rank
/// behind it on an empty square.
#[verifier::rlimit(100)]
proof fn lemma_move_ok_ep_white(b: ChessBoard, f: u64, csq: u64)
    requires
        own_pawns(b, true) & f != 0,
        is_single_bit(f),
        is_single_bit(csq),
        b.black_pawns & csq != 0,
        csq & 0xFF00000000u64 == csq,
        all_pieces_spec(b) & (csq << 8u64) == 0,
        b.prev_double_push_pawns & csq != 0,
    ensures
        move_ok(b, true, spec_ep_move(b, true, f, csq)),
{
    let q = spec_ep_move(b, true, f, csq);
    let own = all_white_spec(b);
    let opp = all_black_spec(b);
    let d = csq << 8u64;
    lemma_ep_shift(csq);
    lemma_basic_bits(csq, csq);
    if wf_board(b) {
        lemma_and_comm(b.white_pawns, f);
        lemma_single_and(f, b.white_pawns);
        lemma_subset_of_part6(f, b.white_pawns, b.white_rooks, b.white_knights, b.white_bishops, b.white_queens, b.white_king);
        lemma_and_comm(all_white_spec(b), all_black_spec(b));
        lemma_pair_disjoint(d, own, opp);
        lemma_union_disjoint6(b.white_pawns, b.white_rooks, b.white_knights, b.white_bishops, b.white_queens, b.white_king, d);
        lemma_union_disjoint6(b.black_pawns, b.black_rooks, b.black_knights, b.black_bishops, b.black_queens, b.black_king, d);
        lemma_and_comm(b.black_pawns, csq);
        lemma_single_and(csq, b.black_pawns);
        lemma_subset_disjoint(csq, b.black_pawns, b.black_rooks);
        lemma_subset_disjoint(csq, b.black_pawns, b.black_knights);
        lemma_subset_disjoint(csq, b.black_pawns, b.black_bishops);
        lemma_subset_disjoint(csq, b.black_pawns, b.black_queens);
        lemma_subset_disjoint(csq, b.black_pawns, b.black_king);
        lemma_bits_move(b.white_pawns, b.white_rooks, f, d);
        lemma_bits_move(b.white_pawns, b.white_knights, f, d);
        lemma_bits_move(b.white_pawns, b.white_bishops, f, d);
        lemma_bits_move(b.white_pawns, b.white_queens, f, d);
        lemma_bits_move(b.white_pawns, b.white_king, f, d);
        lemma_bits_clear(b.black_pawns, b.black_rooks, csq, csq);
        lemma_bits_clear(b.black_pawns, b.black_knights, csq, csq);
        lemma_bits_clear(b.black_pawns, b.black_bishops, csq, csq);
        lemma_bits_clear(b.black_pawns, b.black_queens, csq, csq);
        lemma_bits_clear(b.black_pawns, b.black_king, csq, csq);
        lemma_union_move_pos(b.white_pawns, b.white_rooks, b.white_knights, b.white_bishops, b.white_queens, b.white_king, f, d);
        lemma_union_clear_first(b.black_pawns, b.black_rooks, b.black_knights, b.black_bishops, b.black_queens, b.black_king, csq);
        lemma_cross_move(own, opp, f, d, d, csq);
        lemma_and_comm((own & !f) | d, opp & !csq);
        lemma_pop64_clear(own, f);
        lemma_bits_clear(own, d, f, d);
        lemma_pop64_set(own & !f, d);
        lemma_union_disjoint6(b.black_pawns, b.black_rooks, b.black_knights, b.black_bishops, b.black_queens, b.black_king, own);
        if is_single_bit(b.black_king) {
            lemma_bits_move(own, b.black_king, f, d);
        }
        assert(wf_board(q));
    }
    assert(move_ok(b, true, q));
}

/// One en passant capture built under the generator guards satisfies every
/// clause of [`move_ok`]: the pawn on `f` takes the opposing pawn on `csq`,
/// which the previous ply recorded as a double push, landing one rank
/// behind it on an empty square.
#[verifier::rlimit(100)]
proof fn lemma_move_ok_ep_black(b: ChessBoard, f: u64, csq: u64)
    requires
        own_pawns(b, false) & f != 0,
        is_single_bit(f),
        is_single_bit(csq),
        b.white_pawns & csq != 0,
        csq & 0xFF000000u64 == csq,
        all_pieces_spec(b) & (csq >> 8u64) == 0,
        b.prev_double_push_pawns & csq != 0,
    ensures
        move_ok(b, false, spec_ep_move(b, false, f, csq)),
{
    let q = spec_ep_move(b, false, f, csq);
    let own = all_black_spec(b);
    let opp = all_white_spec(b);
    let d = csq >> 8u64;
    lemma_ep_shift(csq);
    lemma_basic_bits(csq, csq);
    if wf_board(b) {
        lemma_and_comm(b.black_pawns, f);
        lemma_single_and(f, b.black_pawns);
        lemma_subset_of_part6(f, b.black_pawns, b.black_rooks, b.black_knights, b.black_bishops, b.black_queens, b.black_king);
        lemma_and_comm(all_white_spec(b), all_black_spec(b));
        lemma_pair_disjoint(d, opp, own);
        lemma_union_disjoint6(b.black_pawns, b.black_rooks, b.black_knights, b.black_bishops, b.black_queens, b.black_king, d);
        lemma_union_disjoint6(b.white_pawns, b.white_rooks, b.white_knights, b.white_bishops, b.white_queens, b.white_king, d);
        lemma_and_comm(b.white_pawns, csq);
        lemma_single_and(csq, b.white_pawns);
        lemma_subset_disjoint(csq, b.white_pawns, b.white_rooks);
        lemma_subset_disjoint(csq, b.white_pawns, b.white_knights);
        lemma_subset_disjoint(csq, b.white_pawns, b.white_bishops);
        lemma_subset_disjoint(csq, b.white_pawns, b.white_queens);
        lemma_subset_disjoint(csq, b.white_pawns, b.white_king);
        lemma_bits_move(b.black_pawns, b.black_rooks, f, d);
        lemma_bits_move(b.black_pawns, b.black_knights, f, d);
        lemma_bits_move(b.black_pawns, b.black_bishops, f, d);
        lemma_bits_move(b.black_pawns, b.black_queens, f, d);
        lemma_bits_move(b.black_pawns, b.black_king, f, d);
        lemma_bits_clear(b.white_pawns, b.white_rooks, csq, csq);
        lemma_bits_clear(b.white_pawns, b.white_knights, csq, csq);
        lemma_bits_clear(b.white_pawns, b.white_bishops, csq, csq);
        lemma_bits_clear(b.white_pawns, b.white_queens, csq, csq);
        lemma_bits_clear(b.white_pawns, b.white_king, csq, csq);
        lemma_union_move_pos(b.black_pawns, b.black_rooks, b.black_knights, b.black_bishops, b.black_queens, b.black_king, f, d);
        lemma_union_clear_first(b.white_pawns, b.white_rooks, b.white_knights, b.white_bishops, b.white_queens, b.white_king, csq);
        lemma_cross_move(own, opp, f, d, d, csq);
        lemma_and_comm((own & !f) | d, opp & !csq);
        lemma_pop64_clear(own, f);
        lemma_bits_clear(own, d, f, d);
        lemma_pop64_set(own & !f, d);
        lemma_union_disjoint6(b.white_pawns, b.white_rooks, b.white_knights, b.white_bishops, b.white_queens, b.white_king, own);
        if is_single_bit(b.white_king) {
            lemma_bits_move(own, b.white_king, f, d);
        }
        assert(wf_board(q));
    }
    assert(move_ok(b, false, q));
}

} // verus!

verus! {

/// Castling kingside as white under
/// [`castle_ok`] satisfies every clause of [`move_ok`].
#[verifier::rlimit(100)]
proof fn lemma_move_ok_castle_white_kingside(b: ChessBoard)
    requires
        castle_ok(b, true, true),
    ensures
        move_ok(b, true, spec_castle(b, true, true)),
{
    let q = spec_castle(b, true, true);
    let own = all_white_spec(b);
    let opp = all_black_spec(b);
    assert(is_single_bit(SQ_E1) && is_single_bit(SQ_H1) && is_single_bit(SQ_F1) && is_single_bit(SQ_G1)
        && SQ_F1 & SQ_G1 == 0 && SQ_G1 & SQ_F1 == 0) by (bit_vector);
    lemma_rank_mask_facts(SQ_E1);
    if wf_board(b) {
        lemma_and_comm(all_white_spec(b), all_black_spec(b));
        lemma_pair_disjoint(all_pieces_spec(b), SQ_F1, SQ_G1);
        lemma_pair_disjoint(SQ_F1, all_white_spec(b), all_black_spec(b));
        lemma_pair_disjoint(SQ_G1, all_white_spec(b), all_black_spec(b));
        lemma_union_disjoint6(b.white_pawns, b.white_rooks, b.white_knights, b.white_bishops, b.white_queens, b.white_king, SQ_F1);
        lemma_union_disjoint6(b.white_pawns, b.white_rooks, b.white_knights, b.white_bishops, b.white_queens, b.white_king, SQ_G1);
        lemma_union_disjoint6(b.black_pawns, b.black_rooks, b.black_knights, b.black_bishops, b.black_queens, b.black_king, SQ_F1);
        lemma_union_disjoint6(b.black_pawns, b.black_rooks, b.black_knights, b.black_bishops, b.black_queens, b.black_king, SQ_G1);
        lemma_and_comm(b.white_rooks, SQ_H1);
        lemma_single_and(SQ_H1, b.white_rooks);
        lemma_and_comm(b.white_pawns, b.white_rooks);
        lemma_subset_disjoint(SQ_H1, b.white_rooks, b.white_pawns);
        lemma_subset_disjoint(SQ_H1, b.white_rooks, b.white_knights);
        lemma_subset_disjoint(SQ_H1, b.white_rooks, b.white_bishops);
        lemma_subset_disjoint(SQ_H1, b.white_rooks, b.white_queens);
        lemma_bits_move(b.white_rooks, b.white_pawns, SQ_H1, SQ_F1);
        lemma_bits_move(b.white_rooks, b.white_knights, SQ_H1, SQ_F1);
        lemma_bits_move(b.white_rooks, b.white_bishops, SQ_H1, SQ_F1);
        lemma_bits_move(b.white_rooks, b.white_queens, SQ_H1, SQ_F1);
        lemma_and_comm(SQ_G1, b.white_rooks);
        lemma_bits_move(b.white_rooks, SQ_G1, SQ_H1, SQ_F1);
        lemma_and_comm(SQ_G1, b.white_pawns);
        lemma_and_comm(SQ_G1, b.white_knights);
        lemma_and_comm(SQ_G1, b.white_bishops);
        lemma_and_comm(SQ_G1, b.white_queens);
        lemma_union_disjoint6(b.white_pawns, b.white_rooks, b.white_knights, b.white_bishops, b.white_queens, b.white_king, opp);
        lemma_and_comm(opp, b.white_pawns);
        lemma_and_comm(opp, b.white_rooks);
        lemma_and_comm(opp, b.white_knights);
        lemma_and_comm(opp, b.white_bishops);
        lemma_and_comm(opp, b.white_queens);
        lemma_bits_move(b.white_rooks, opp, SQ_H1, SQ_F1);
        lemma_or_disjoint(b.white_pawns, ((b.white_rooks & !SQ_H1) | SQ_F1), opp);
        lemma_or_disjoint(b.white_pawns | ((b.white_rooks & !SQ_H1) | SQ_F1), b.white_knights, opp);
        lemma_or_disjoint(b.white_pawns | ((b.white_rooks & !SQ_H1) | SQ_F1) | b.white_knights, b.white_bishops, opp);
        lemma_or_disjoint(b.white_pawns | ((b.white_rooks & !SQ_H1) | SQ_F1) | b.white_knights | b.white_bishops, b.white_queens, opp);
        lemma_or_disjoint(b.white_pawns | ((b.white_rooks & !SQ_H1) | SQ_F1) | b.white_knights | b.white_bishops | b.white_queens, SQ_G1, opp);
        let v1 = b.white_pawns;
        let v2 = b.white_rooks;
        let v3 = b.white_knights;
        let v4 = b.white_bishops;
        let v5 = b.white_queens;
        let v6 = b.white_king;
        assert((v1 | ((v2 & !SQ_H1) | SQ_F1) | v3 | v4 | v5 | SQ_G1) == (((((v1 | v2 | v3 | v4 | v5 | v6) & !SQ_E1) & !SQ_H1) | SQ_F1) | SQ_G1) && (v1 | v2 | v3 | v4 | v5 | v6) & SQ_E1 == SQ_E1 && ((v1 | v2 | v3 | v4 | v5 | v6)
            & !SQ_E1) & SQ_H1 == SQ_H1 && (((v1 | v2 | v3 | v4 | v5 | v6) & !SQ_E1) & !SQ_H1) & SQ_F1 == 0 && ((((v1 | v2 | v3 | v4 | v5 | v6) & !SQ_E1)
            & !SQ_H1) | SQ_F1) & SQ_G1 == 0) by (bit_vector)
            requires
                v6 == SQ_E1,
                v2 & SQ_H1 == SQ_H1,
                (v1 | v2 | v3 | v4 | v5 | v6) & SQ_F1 == 0,
                (v1 | v2 | v3 | v4 | v5 | v6) & SQ_G1 == 0,
                v1 & SQ_E1 == 0,
                v2 & SQ_E1 == 0,
                v3 & SQ_E1 == 0,
                v4 & SQ_E1 == 0,
                v5 & SQ_E1 == 0,
                SQ_H1 & v1 == 0,
                SQ_H1 & v3 == 0,
                SQ_H1 & v4 == 0,
                SQ_H1 & v5 == 0,
        ;
        lemma_pop64_clear(own, SQ_E1);
        lemma_pop64_clear(own & !SQ_E1, SQ_H1);
        lemma_pop64_set((own & !SQ_E1) & !SQ_H1, SQ_F1);
        lemma_pop64_set(((own & !SQ_E1) & !SQ_H1) | SQ_F1, SQ_G1);
        lemma_union_disjoint6(b.black_pawns, b.black_rooks, b.black_knights, b.black_bishops, b.black_queens, b.black_king, b.white_pawns | ((b.white_rooks & !SQ_H1) | SQ_F1) | b.white_knights | b.white_bishops | b.white_queens | SQ_G1);
        lemma_and_comm(b.white_pawns | ((b.white_rooks & !SQ_H1) | SQ_F1) | b.white_knights | b.white_bishops | b.white_queens | SQ_G1, opp);
        lemma_clear_noop(opp, b.white_pawns | ((b.white_rooks & !SQ_H1) | SQ_F1) | b.white_knights | b.white_bishops | b.white_queens | SQ_G1);
        assert(wf_board(q));
    }
    assert(move_ok(b, true, q));
}

/// Castling queenside as white under
/// [`castle_ok`] satisfies every clause of [`move_ok`].
#[verifier::rlimit(100)]
proof fn lemma_move_ok_castle_white_queenside(b: ChessBoard)
    requires
        castle_ok(b, true, false),
    ensures
        move_ok(b, true, spec_castle(b, true, false)),
{
    let q = spec_castle(b, true, false);
    let own = all_white_spec(b);
    let opp = all_black_spec(b);
    assert(is_single_bit(SQ_E1) && is_single_bit(SQ_A1) && is_single_bit(SQ_D1) && is_single_bit(SQ_C1)
        && SQ_D1 & SQ_C1 == 0 && SQ_C1 & SQ_D1 == 0) by (bit_vector);
    lemma_rank_mask_facts(SQ_E1);
    if wf_board(b) {
        lemma_and_comm(all_white_spec(b), all_black_spec(b));
        lemma_pair_disjoint(all_pieces_spec(b), SQ_B1 | SQ_C1, SQ_D1);
        lemma_pair_disjoint(all_pieces_spec(b), SQ_B1, SQ_C1);
        lemma_pair_disjoint(SQ_D1, all_white_spec(b), all_black_spec(b));
        lemma_pair_disjoint(SQ_C1, all_white_spec(b), all_black_spec(b));
        lemma_union_disjoint6(b.white_pawns, b.white_rooks, b.white_knights, b.white_bishops, b.white_queens, b.white_king, SQ_D1);
        lemma_union_disjoint6(b.white_pawns, b.white_rooks, b.white_knights, b.white_bishops, b.white_queens, b.white_king, SQ_C1);
        lemma_union_disjoint6(b.black_pawns, b.black_rooks, b.black_knights, b.black_bishops, b.black_queens, b.black_king, SQ_D1);
        lemma_union_disjoint6(b.black_pawns, b.black_rooks, b.black_knights, b.black_bishops, b.black_queens, b.black_king, SQ_C1);
        lemma_and_comm(b.white_rooks, SQ_A1);
        lemma_single_and(SQ_A1, b.white_rooks);
        lemma_and_comm(b.white_pawns, b.white_rooks);
        lemma_subset_disjoint(SQ_A1, b.white_rooks, b.white_pawns);
        lemma_subset_disjoint(SQ_A1, b.white_rooks, b.white_knights);
        lemma_subset_disjoint(SQ_A1, b.white_rooks, b.white_bishops);
        lemma_subset_disjoint(SQ_A1, b.white_rooks, b.white_queens);
        lemma_bits_move(b.white_rooks, b.white_pawns, SQ_A1, SQ_D1);
        lemma_bits_move(b.white_rooks, b.white_knights, SQ_A1, SQ_D1);
        lemma_bits_move(b.white_rooks, b.white_bishops, SQ_A1, SQ_D1);
        lemma_bits_move(b.white_rooks, b.white_queens, SQ_A1, SQ_D1);
        lemma_and_comm(SQ_C1, b.white_rooks);
        lemma_bits_move(b.white_rooks, SQ_C1, SQ_A1, SQ_D1);
        lemma_and_comm(SQ_C1, b.white_pawns);
        lemma_and_comm(SQ_C1, b.white_knights);
        lemma_and_comm(SQ_C1, b.white_bishops);
        lemma_and_comm(SQ_C1, b.white_queens);
        lemma_union_disjoint6(b.white_pawns, b.white_rooks, b.white_knights, b.white_bishops, b.white_queens, b.white_king, opp);
        lemma_and_comm(opp, b.white_pawns);
        lemma_and_comm(opp, b.white_rooks);
        lemma_and_comm(opp, b.white_knights);
        lemma_and_comm(opp, b.white_bishops);
        lemma_and_comm(opp, b.white_queens);
        lemma_bits_move(b.white_rooks, opp, SQ_A1, SQ_D1);
        lemma_or_disjoint(b.white_pawns, ((b.white_rooks & !SQ_A1) | SQ_D1), opp);
        lemma_or_disjoint(b.white_pawns | ((b.white_rooks & !SQ_A1) | SQ_D1), b.white_knights, opp);
        lemma_or_disjoint(b.white_pawns | ((b.white_rooks & !SQ_A1) | SQ_D1) | b.white_knights, b.white_bishops, opp);
        lemma_or_disjoint(b.white_pawns | ((b.white_rooks & !SQ_A1) | SQ_D1) | b.white_knights | b.white_bishops, b.white_queens, opp);
        lemma_or_disjoint(b.white_pawns | ((b.white_rooks & !SQ_A1) | SQ_D1) | b.white_knights | b.white_bishops | b.white_queens, SQ_C1, opp);
        let v1 = b.white_pawns;
        let v2 = b.white_rooks;
        let v3 = b.white_knights;
        let v4 = b.white_bishops;
        let v5 = b.white_queens;
        let v6 = b.white_king;
        assert((v1 | ((v2 & !SQ_A1) | SQ_D1) | v3 | v4 | v5 | SQ_C1) == (((((v1 | v2 | v3 | v4 | v5 | v6) & !SQ_E1) & !SQ_A1) | SQ_D1) | SQ_C1) && (v1 | v2 | v3 | v4 | v5 | v6) & SQ_E1 == SQ_E1 && ((v1 | v2 | v3 | v4 | v5 | v6)
            & !SQ_E1) & SQ_A1 == SQ_A1 && (((v1 | v2 | v3 | v4 | v5 | v6) & !SQ_E1) & !SQ_A1) & SQ_D1 == 0 && ((((v1 | v2 | v3 | v4 | v5 | v6) & !SQ_E1)
            & !SQ_A1) | SQ_D1) & SQ_C1 == 0) by (bit_vector)
            requires
                v6 == SQ_E1,
                v2 & SQ_A1 == SQ_A1,
                (v1 | v2 | v3 | v4 | v5 | v6) & SQ_D1 == 0,
                (v1 | v2 | v3 | v4 | v5 | v6) & SQ_C1 == 0,
                v1 & SQ_E1 == 0,
                v2 & SQ_E1 == 0,
                v3 & SQ_E1 == 0,
                v4 & SQ_E1 == 0,
                v5 & SQ_E1 == 0,
                SQ_A1 & v1 == 0,
                SQ_A1 & v3 == 0,
                SQ_A1 & v4 == 0,
                SQ_A1 & v5 == 0,
        ;
        lemma_pop64_clear(own, SQ_E1);
        lemma_pop64_clear(own & !SQ_E1, SQ_A1);
        lemma_pop64_set((own & !SQ_E1) & !SQ_A1, SQ_D1);
        lemma_pop64_set(((own & !SQ_E1) & !SQ_A1) | SQ_D1, SQ_C1);
        lemma_union_disjoint6(b.black_pawns, b.black_rooks, b.black_knights, b.black_bishops, b.black_queens, b.black_king, b.white_pawns | ((b.white_rooks & !SQ_A1) | SQ_D1) | b.white_knights | b.white_bishops | b.white_queens | SQ_C1);
        lemma_and_comm(b.white_pawns | ((b.white_rooks & !SQ_A1) | SQ_D1) | b.white_knights | b.white_bishops | b.white_queens | SQ_C1, opp);
        lemma_clear_noop(opp, b.white_pawns | ((b.white_rooks & !SQ_A1) | SQ_D1) | b.white_knights | b.white_bishops | b.white_queens | SQ_C1);
        assert(wf_board(q));
    }
    assert(move_ok(b, true, q));
}

/// Castling kingside as black under
/// [`castle_ok`] satisfies every clause of [`move_ok`].
#[verifier::rlimit(100)]
proof fn lemma_move_ok_castle_black_kingside(b: ChessBoard)
    requires
        castle_ok(b, false, true),
    ensures
        move_ok(b, false, spec_castle(b, false, true)),
{
    let q = spec_castle(b, false, true);
    let own = all_black_spec(b);
    let opp = all_white_spec(b);
    assert(is_single_bit(SQ_E8) && is_single_bit(SQ_H8) && is_single_bit(SQ_F8) && is_single_bit(SQ_G8)
        && SQ_F8 & SQ_G8 == 0 && SQ_G8 & SQ_F8 == 0) by (bit_vector);
    lemma_rank_mask_facts(SQ_E8);
    if wf_board(b) {
        lemma_and_comm(all_white_spec(b), all_black_spec(b));
        lemma_pair_disjoint(all_pieces_spec(b), SQ_F8, SQ_G8);
        lemma_pair_disjoint(SQ_F8, all_white_spec(b), all_black_spec(b));
        lemma_pair_disjoint(SQ_G8, all_white_spec(b), all_black_spec(b));
        lemma_union_disjoint6(b.black_pawns, b.black_rooks, b.black_knights, b.black_bishops, b.black_queens, b.black_king, SQ_F8);
        lemma_union_disjoint6(b.black_pawns, b.black_rooks, b.black_knights, b.black_bishops, b.black_queens, b.black_king, SQ_G8);
        lemma_union_disjoint6(b.white_pawns, b.white_rooks, b.white_knights, b.white_bishops, b.white_queens, b.white_king, SQ_F8);
        lemma_union_disjoint6(b.white_pawns, b.white_rooks, b.white_knights, b.white_bishops, b.white_queens, b.white_king, SQ_G8);
        lemma_and_comm(b.black_rooks, SQ_H8);
        lemma_single_and(SQ_H8, b.black_rooks);
        lemma_and_comm(b.black_pawns, b.black_rooks);
        lemma_subset_disjoint(SQ_H8, b.black_rooks, b.black_pawns);
        lemma_subset_disjoint(SQ_H8, b.black_rooks, b.black_knights);
        lemma_subset_disjoint(SQ_H8, b.black_rooks, b.black_bishops);
        lemma_subset_disjoint(SQ_H8, b.black_rooks, b.black_queens);
        lemma_bits_move(b.black_rooks, b.black_pawns, SQ_H8, SQ_F8);
        lemma_bits_move(b.black_rooks, b.black_knights, SQ_H8, SQ_F8);
        lemma_bits_move(b.black_rooks, b.black_bishops, SQ_H8, SQ_F8);
        lemma_bits_move(b.black_rooks, b.black_queens, SQ_H8, SQ_F8);
        lemma_and_comm(SQ_G8, b.black_rooks);
        lemma_bits_move(b.black_rooks, SQ_G8, SQ_H8, SQ_F8);
        lemma_and_comm(SQ_G8, b.black_pawns);
        lemma_and_comm(SQ_G8, b.black_knights);
        lemma_and_comm(SQ_G8, b.black_bishops);
        lemma_and_comm(SQ_G8, b.black_queens);
        lemma_union_disjoint6(b.black_pawns, b.black_rooks, b.black_knights, b.black_bishops, b.black_queens, b.black_king, opp);
        lemma_and_comm(opp, b.black_pawns);
        lemma_and_comm(opp, b.black_rooks);
        lemma_and_comm(opp, b.black_knights);
        lemma_and_comm(opp, b.black_bishops);
        lemma_and_comm(opp, b.black_queens);
        lemma_bits_move(b.black_rooks, opp, SQ_H8, SQ_F8);
        lemma_or_disjoint(b.black_pawns, ((b.black_rooks & !SQ_H8) | SQ_F8), opp);
        lemma_or_disjoint(b.black_pawns | ((b.black_rooks & !SQ_H8) | SQ_F8), b.black_knights, opp);
        lemma_or_disjoint(b.black_pawns | ((b.black_rooks & !SQ_H8) | SQ_F8) | b.black_knights, b.black_bishops, opp);
        lemma_or_disjoint(b.black_pawns | ((b.black_rooks & !SQ_H8) | SQ_F8) | b.black_knights | b.black_bishops, b.black_queens, opp);
        lemma_or_disjoint(b.black_pawns | ((b.black_rooks & !SQ_H8) | SQ_F8) | b.black_knights | b.black_bishops | b.black_queens, SQ_G8, opp);
        let v1 = b.black_pawns;
        let v2 = b.black_rooks;
        let v3 = b.black_knights;
        let v4 = b.black_bishops;
        let v5 = b.black_queens;
        let v6 = b.black_king;
        assert((v1 | ((v2 & !SQ_H8) | SQ_F8) | v3 | v4 | v5 | SQ_G8) == (((((v1 | v2 | v3 | v4 | v5 | v6) & !SQ_E8) & !SQ_H8) | SQ_F8) | SQ_G8) && (v1 | v2 | v3 | v4 | v5 | v6) & SQ_E8 == SQ_E8 && ((v1 | v2 | v3 | v4 | v5 | v6)
            & !SQ_E8) & SQ_H8 == SQ_H8 && (((v1 | v2 | v3 | v4 | v5 | v6) & !SQ_E8) & !SQ_H8) & SQ_F8 == 0 && ((((v1 | v2 | v3 | v4 | v5 | v6) & !SQ_E8)
            & !SQ_H8) | SQ_F8) & SQ_G8 == 0) by (bit_vector)
            requires
                v6 == SQ_E8,
                v2 & SQ_H8 == SQ_H8,
                (v1 | v2 | v3 | v4 | v5 | v6) & SQ_F8 == 0,
                (v1 | v2 | v3 | v4 | v5 | v6) & SQ_G8 == 0,
                v1 & SQ_E8 == 0,
                v2 & SQ_E8 == 0,
                v3 & SQ_E8 == 0,
                v4 & SQ_E8 == 0,
                v5 & SQ_E8 == 0,
                SQ_H8 & v1 == 0,
                SQ_H8 & v3 == 0,
                SQ_H8 & v4 == 0,
                SQ_H8 & v5 == 0,
        ;
        lemma_pop64_clear(own, SQ_E8);
        lemma_pop64_clear(own & !SQ_E8, SQ_H8);
        lemma_pop64_set((own & !SQ_E8) & !SQ_H8, SQ_F8);
        lemma_pop64_set(((own & !SQ_E8) & !SQ_H8) | SQ_F8, SQ_G8);
        lemma_union_disjoint6(b.white_pawns, b.white_rooks, b.white_knights, b.white_bishops, b.white_queens, b.white_king, b.black_pawns | ((b.black_rooks & !SQ_H8) | SQ_F8) | b.black_knights | b.black_bishops | b.black_queens | SQ_G8);
        lemma_and_comm(b.black_pawns | ((b.black_rooks & !SQ_H8) | SQ_F8) | b.black_knights | b.black_bishops | b.black_queens | SQ_G8, opp);
        lemma_clear_noop(opp, b.black_pawns | ((b.black_rooks & !SQ_H8) | SQ_F8) | b.black_knights | b.black_bishops | b.black_queens | SQ_G8);
        assert(wf_board(q));
    }
    assert(move_ok(b, false, q));
}

/// Castling queenside as black under
/// [`castle_ok`] satisfies every clause of [`move_ok`].
#[verifier::rlimit(100)]
proof fn lemma_move_ok_castle_black_queenside(b: ChessBoard)
    requires
        castle_ok(b, false, false),
    ensures
        move_ok(b, false, spec_castle(b, false, false)),
{
    let q = spec_castle(b, false, false);
    let own = all_black_spec(b);
    let opp = all_white_spec(b);
    assert(is_single_bit(SQ_E8) && is_single_bit(SQ_A8) && is_single_bit(SQ_D8) && is_single_bit(SQ_C8)
        && SQ_D8 & SQ_C8 == 0 && SQ_C8 & SQ_D8 == 0) by (bit_vector);
    lemma_rank_mask_facts(SQ_E8);
    if wf_board(b) {
        lemma_and_comm(all_white_spec(b), all_black_spec(b));
        lemma_pair_disjoint(all_pieces_spec(b), SQ_B8 | SQ_C8, SQ_D8);
        lemma_pair_disjoint(all_pieces_spec(b), SQ_B8, SQ_C8);
        lemma_pair_disjoint(SQ_D8, all_white_spec(b), all_black_spec(b));
        lemma_pair_disjoint(SQ_C8, all_white_spec(b), all_black_spec(b));
        lemma_union_disjoint6(b.black_pawns, b.black_rooks, b.black_knights, b.black_bishops, b.black_queens, b.black_king, SQ_D8);
        lemma_union_disjoint6(b.black_pawns, b.black_rooks, b.black_knights, b.black_bishops, b.black_queens, b.black_king, SQ_C8);
        lemma_union_disjoint6(b.white_pawns, b.white_rooks, b.white_knights, b.white_bishops, b.white_queens, b.white_king, SQ_D8);
        lemma_union_disjoint6(b.white_pawns, b.white_rooks, b.white_knights, b.white_bishops, b.white_queens, b.white_king, SQ_C8);
        lemma_and_comm(b.black_rooks, SQ_A8);
        lemma_single_and(SQ_A8, b.black_rooks);
        lemma_and_comm(b.black_pawns, b.black_rooks);
        lemma_subset_disjoint(SQ_A8, b.black_rooks, b.black_pawns);
        lemma_subset_disjoint(SQ_A8, b.black_rooks, b.black_knights);
        lemma_subset_disjoint(SQ_A8, b.black_rooks, b.black_bishops);
        lemma_subset_disjoint(SQ_A8, b.black_rooks, b.black_queens);
        lemma_bits_move(b.black_rooks, b.black_pawns, SQ_A8, SQ_D8);
        lemma_bits_move(b.black_rooks, b.black_knights, SQ_A8, SQ_D8);
        lemma_bits_move(b.black_rooks, b.black_bishops, SQ_A8, SQ_D8);
        lemma_bits_move(b.black_rooks, b.black_queens, SQ_A8, SQ_D8);
        lemma_and_comm(SQ_C8, b.black_rooks);
        lemma_bits_move(b.black_rooks, SQ_C8, SQ_A8, SQ_D8);
        lemma_and_comm(SQ_C8, b.black_pawns);
        lemma_and_comm(SQ_C8, b.black_knights);
        lemma_and_comm(SQ_C8, b.black_bishops);
        lemma_and_comm(SQ_C8, b.black_queens);
        lemma_union_disjoint6(b.black_pawns, b.black_rooks, b.black_knights, b.black_bishops, b.black_queens, b.black_king, opp);
        lemma_and_comm(opp, b.black_pawns);
        lemma_and_comm(opp, b.black_rooks);
        lemma_and_comm(opp, b.black_knights);
        lemma_and_comm(opp, b.black_bishops);
        lemma_and_comm(opp, b.black_queens);
        lemma_bits_move(b.black_rooks, opp, SQ_A8, SQ_D8);
        lemma_or_disjoint(b.black_pawns, ((b.black_rooks & !SQ_A8) | SQ_D8), opp);
        lemma_or_disjoint(b.black_pawns | ((b.black_rooks & !SQ_A8) | SQ_D8), b.black_knights, opp);
        lemma_or_disjoint(b.black_pawns | ((b.black_rooks & !SQ_A8) | SQ_D8) | b.black_knights, b.black_bishops, opp);
        lemma_or_disjoint(b.black_pawns | ((b.black_rooks & !SQ_A8) | SQ_D8) | b.black_knights | b.black_bishops, b.black_queens, opp);
        lemma_or_disjoint(b.black_pawns | ((b.black_rooks & !SQ_A8) | SQ_D8) | b.black_knights | b.black_bishops | b.black_queens, SQ_C8, opp);
        let v1 = b.black_pawns;
        let v2 = b.black_rooks;
        let v3 = b.black_knights;
        let v4 = b.black_bishops;
        let v5 = b.black_queens;
        let v6 = b.black_king;
        assert((v1 | ((v2 & !SQ_A8) | SQ_D8) | v3 | v4 | v5 | SQ_C8) == (((((v1 | v2 | v3 | v4 | v5 | v6) & !SQ_E8) & !SQ_A8) | SQ_D8) | SQ_C8) && (v1 | v2 | v3 | v4 | v5 | v6) & SQ_E8 == SQ_E8 && ((v1 | v2 | v3 | v4 | v5 | v6)
            & !SQ_E8) & SQ_A8 == SQ_A8 && (((v1 | v2 | v3 | v4 | v5 | v6) & !SQ_E8) & !SQ_A8) & SQ_D8 == 0 && ((((v1 | v2 | v3 | v4 | v5 | v6) & !SQ_E8)
            & !SQ_A8) | SQ_D8) & SQ_C8 == 0) by (bit_vector)
            requires
                v6 == SQ_E8,
                v2 & SQ_A8 == SQ_A8,
                (v1 | v2 | v3 | v4 | v5 | v6) & SQ_D8 == 0,
                (v1 | v2 | v3 | v4 | v5 | v6) & SQ_C8 == 0,
                v1 & SQ_E8 == 0,
                v2 & SQ_E8 == 0,
                v3 & SQ_E8 == 0,
                v4 & SQ_E8 == 0,
                v5 & SQ_E8 == 0,
                SQ_A8 & v1 == 0,
                SQ_A8 & v3 == 0,
                SQ_A8 & v4 == 0,
                SQ_A8 & v5 == 0,
        ;
        lemma_pop64_clear(own, SQ_E8);
        lemma_pop64_clear(own & !SQ_E8, SQ_A8);
        lemma_pop64_set((own & !SQ_E8) & !SQ_A8, SQ_D8);
        lemma_pop64_set(((own & !SQ_E8) & !SQ_A8) | SQ_D8, SQ_C8);
        lemma_union_disjoint6(b.white_pawns, b.white_rooks, b.white_knights, b.white_bishops, b.white_queens, b.white_king, b.black_pawns | ((b.black_rooks & !SQ_A8) | SQ_D8) | b.black_knights | b.black_bishops | b.black_queens | SQ_C8);
        lemma_and_comm(b.black_pawns | ((b.black_rooks & !SQ_A8) | SQ_D8) | b.black_knights | b.black_bishops | b.black_queens | SQ_C8, opp);
        lemma_clear_noop(opp, b.black_pawns | ((b.black_rooks & !SQ_A8) | SQ_D8) | b.black_knights | b.black_bishops | b.black_queens | SQ_C8);
        assert(wf_board(q));
    }
    assert(move_ok(b, false, q));
}

/// A castle generated under its guard satisfies every clause of
/// [`move_ok`].
proof fn lemma_move_ok_castle(b: ChessBoard, white: bool, kingside: bool)
    requires
        castle_ok(b, white, kingside),
    ensures
        move_ok(b, white, spec_castle(b, white, kingside)),
{
    if white {
        if kingside {
            lemma_move_ok_castle_white_kingside(b);
        } else {
            lemma_move_ok_castle_white_queenside(b);
        }
    } else {
        if kingside {
            lemma_move_ok_castle_black_kingside(b);
        } else {
            lemma_move_ok_castle_black_queenside(b);
        }
    }
}

} // verus!

verus! {

/// Every position in `s` satisfies [`move_ok`] with respect to `b`.
pub open spec fn all_moves_ok(b: ChessBoard, white: bool, s: Seq<ChessBoard>) -> bool {
    forall|i: int| 0 <= i < s.len() ==> move_ok(b, white, #[trigger] s[i])
}

proof fn lemma_all_ok_concat(b: ChessBoard, white: bool, s1: Seq<ChessBoard>, s2: Seq<ChessBoard>)
    requires
        all_moves_ok(b, white, s1),
        all_moves_ok(b, white, s2),
    ensures
        all_moves_ok(b, white, s1 + s2),
{
    assert forall|i: int| 0 <= i < (s1 + s2).len() implies move_ok(b, white, #[trigger] (s1
        + s2)[i]) by {
        if i < s1.len() {
            assert((s1 + s2)[i] == s1[i]);
        } else {
            assert((s1 + s2)[i] == s2[i - s1.len()]);
        }
    }
}

proof fn lemma_piece_step_ok(b: ChessBoard, white: bool, p: Piece, i: u64, off: int, lo: int, hi: int)
    requires
        i < 64,
        occ_at(own_bb(b, white, p), i as int),
    ensures
        all_moves_ok(b, white, piece_step(b, white, p, i, off, lo, hi)),
{
    let t: int = i + off;
    if 0 <= t && t < 64 && lo <= t % 8 && t % 8 <= hi && !occ_at(own_all(b, white), t) {
        lemma_single_bit_shl(i);
        lemma_single_bit_shl(t as u64);
        lemma_move_ok_move(b, white, p, sq_bit(i as int), sq_bit(t));
    }
}

proof fn lemma_ray_ok(
    b: ChessBoard,
    white: bool,
    p: Piece,
    fi: u64,
    cur: u64,
    df: int,
    dr: int,
    fuel: nat,
)
    requires
        fi < 64,
        occ_at(own_bb(b, white, p), fi as int),
    ensures
        all_moves_ok(b, white, ray_moves(b, white, p, fi, cur, df, dr, fuel)),
    decreases fuel,
{
    if fuel > 0 {
        let nf: int = cur % 8 + df;
        let nr: int = cur / 8 + dr;
        if 0 <= nf && nf < 8 && 0 <= nr && nr < 8 {
            let t: int = nr * 8 + nf;
            lemma_rank_file(nr, nf);
            lemma_single_bit_shl(fi);
            lemma_single_bit_shl(t as u64);
            if !occ_at(own_all(b, white), t) {
                lemma_move_ok_move(b, white, p, sq_bit(fi as int), sq_bit(t));
                if !occ_at(opp_all(b, white), t) {
                    lemma_ray_ok(b, white, p, fi, t as u64, df, dr, (fuel - 1) as nat);
                    lemma_all_ok_concat(
                        b,
                        white,
                        seq![spec_move(b, white, p, sq_bit(fi as int), sq_bit(t))],
                        ray_moves(b, white, p, fi, t as u64, df, dr, (fuel - 1) as nat),
                    );
                }
            }
        }
    }
}

proof fn lemma_knight_sq_ok(b: ChessBoard, white: bool, i: u64)
    requires
        i < 64,
        occ_at(own_bb(b, white, Piece::Knight), i as int),
    ensures
        all_moves_ok(b, white, knight_sq_moves(b, white, i)),
{
    let p = Piece::Knight;
    lemma_piece_step_ok(b, white, p, i, 17, 1, 7);
    lemma_piece_step_ok(b, white, p, i, 15, 0, 6);
    lemma_piece_step_ok(b, white, p, i, -15, 1, 7);
    lemma_piece_step_ok(b, white, p, i, -17, 0, 6);
    lemma_piece_step_ok(b, white, p, i, 10, 2, 7);
    lemma_piece_step_ok(b, white, p, i, -6, 2, 7);
    lemma_piece_step_ok(b, white, p, i, 6, 0, 5);
    lemma_piece_step_ok(b, white, p, i, -10, 0, 5);
    let s1 = piece_step(b, white, p, i, 17, 1, 7);
    let s2 = piece_step(b, white, p, i, 15, 0, 6);
    let s3 = piece_step(b, white, p, i, -15, 1, 7);
    let s4 = piece_step(b, white, p, i, -17, 0, 6);
    let s5 = piece_step(b, white, p, i, 10, 2, 7);
    let s6 = piece_step(b, white, p, i, -6, 2, 7);
    let s7 = piece_step(b, white, p, i, 6, 0, 5);
    let s8 = piece_step(b, white, p, i, -10, 0, 5);
    lemma_all_ok_concat(b, white, s1, s2);
    lemma_all_ok_concat(b, white, s1 + s2, s3);
    lemma_all_ok_concat(b, white, s1 + s2 + s3, s4);
    lemma_all_ok_concat(b, white, s1 + s2 + s3 + s4, s5);
    lemma_all_ok_concat(b, white, s1 + s2 + s3 + s4 + s5, s6);
    lemma_all_ok_concat(b, white, s1 + s2 + s3 + s4 + s5 + s6, s7);
    lemma_all_ok_concat(b, white, s1 + s2 + s3 + s4 + s5 + s6 + s7, s8);
}

proof fn lemma_king_sq_ok(b: ChessBoard, white: bool, i: u64)
    requires
        i < 64,
        occ_at(own_bb(b, white, Piece::King), i as int),
    ensures
        all_moves_ok(b, white, king_step_sq_moves(b, white, i)),
{
    let p = Piece::King;
    lemma_piece_step_ok(b, white, p, i, 8, 0, 7);
    lemma_piece_step_ok(b, white, p, i, -8, 0, 7);
    lemma_piece_step_ok(b, white, p, i, -1, 0, 6);
    lemma_piece_step_ok(b, white, p, i, 1, 1, 7);
    lemma_piece_step_ok(b, white, p, i, 9, 1, 7);
    lemma_piece_step_ok(b, white, p, i, 7, 0, 6);
    lemma_piece_step_ok(b, white, p, i, -7, 1, 7);
    lemma_piece_step_ok(b, white, p, i, -9, 0, 6);
    let s1 = piece_step(b, white, p, i, 8, 0, 7);
    let s2 = piece_step(b, white, p, i, -8, 0, 7);
    let s3 = piece_step(b, white, p, i, -1, 0, 6);
    let s4 = piece_step(b, white, p, i, 1, 1, 7);
    let s5 = piece_step(b, white, p, i, 9, 1, 7);
    let s6 = piece_step(b, white, p, i, 7, 0, 6);
    let s7 = piece_step(b, white, p, i, -7, 1, 7);
    let s8 = piece_step(b, white, p, i, -9, 0, 6);
    lemma_all_ok_concat(b, white, s1, s2);
    lemma_all_ok_concat(b, white, s1 + s2, s3);
    lemma_all_ok_concat(b, white, s1 + s2 + s3, s4);
    lemma_all_ok_concat(b, white, s1 + s2 + s3 + s4, s5);
    lemma_all_ok_concat(b, white, s1 + s2 + s3 + s4 + s5, s6);
    lemma_all_ok_concat(b, white, s1 + s2 + s3 + s4 + s5 + s6, s7);
    lemma_all_ok_concat(b, white, s1 + s2 + s3 + s4 + s5 + s6 + s7, s8);
}

proof fn lemma_slider_sq_ok(b: ChessBoard, white: bool, p: Piece, i: u64)
    requires
        i < 64,
        occ_at(own_bb(b, white, p), i as int),
        p is Rook || p is Bishop || p is Queen,
    ensures
        all_moves_ok(b, white, slider_sq_moves(b, white, p, i)),
{
    lemma_ray_ok(b, white, p, i, i, 0, 1, 7);
    lemma_ray_ok(b, white, p, i, i, 0, -1, 7);
    lemma_ray_ok(b, white, p, i, i, -1, 0, 7);
    lemma_ray_ok(b, white, p, i, i, 1, 0, 7);
    lemma_ray_ok(b, white, p, i, i, 1, 1, 7);
    lemma_ray_ok(b, white, p, i, i, -1, 1, 7);
    lemma_ray_ok(b, white, p, i, i, 1, -1, 7);
    lemma_ray_ok(b, white, p, i, i, -1, -1, 7);
    let r1 = ray_moves(b, white, p, i, i, 0, 1, 7);
    let r2 = ray_moves(b, white, p, i, i, 0, -1, 7);
    let r3 = ray_moves(b, white, p, i, i, -1, 0, 7);
    let r4 = ray_moves(b, white, p, i, i, 1, 0, 7);
    let r5 = ray_moves(b, white, p, i, i, 1, 1, 7);
    let r6 = ray_moves(b, white, p, i, i, -1, 1, 7);
    let r7 = ray_moves(b, white, p, i, i, 1, -1, 7);
    let r8 = ray_moves(b, white, p, i, i, -1, -1, 7);
    lemma_all_ok_concat(b, white, r1, r2);
    lemma_all_ok_concat(b, white, r1 + r2, r3);
    lemma_all_ok_concat(b, white, r1 + r2 + r3, r4);
    lemma_all_ok_concat(b, white, r5, r6);
    lemma_all_ok_concat(b, white, r5 + r6, r7);
    lemma_all_ok_concat(b, white, r5 + r6 + r7, r8);
    lemma_all_ok_concat(b, white, r1 + r2 + r3 + r4, r5);
    lemma_all_ok_concat(b, white, r1 + r2 + r3 + r4 + r5, r6);
    lemma_all_ok_concat(b, white, r1 + r2 + r3 + r4 + r5 + r6, r7);
    lemma_all_ok_concat(b, white, r1 + r2 + r3 + r4 + r5 + r6 + r7, r8);
}

proof fn lemma_pawn_cap_ok(b: ChessBoard, white: bool, i: u64, t: int, lo: int, hi: int)
    requires
        i < 64,
        occ_at(own_pawns(b, white), i as int),
    ensures
        all_moves_ok(b, white, pawn_cap(b, white, i, t, lo, hi)),
{
    if 0 <= t && t < 64 && lo <= t % 8 && t % 8 <= hi && occ_at(opp_all(b, white), t) {
        lemma_single_bit_shl(i);
        lemma_single_bit_shl(t as u64);
        if white {
            lemma_move_ok_pawn_white(b, sq_bit(i as int), sq_bit(t), false);
        } else {
            lemma_move_ok_pawn_black(b, sq_bit(i as int), sq_bit(t), false);
        }
    }
}

proof fn lemma_pawn_fwd_ok(b: ChessBoard, white: bool, i: u64)
    requires
        i < 64,
        occ_at(own_pawns(b, white), i as int),
    ensures
        all_moves_ok(b, white, pawn_fwd(b, white, i)),
{
    let t: int = if white {
        i + 8
    } else {
        i - 8
    };
    if 0 <= t && t < 64 && !occ_at(all_pieces_spec(b), t) {
        lemma_single_bit_shl(i);
        lemma_single_bit_shl(t as u64);
        if white {
            lemma_move_ok_pawn_white(b, sq_bit(i as int), sq_bit(t), false);
        } else {
            lemma_move_ok_pawn_black(b, sq_bit(i as int), sq_bit(t), false);
        }
    }
}

proof fn lemma_pawn_dbl_ok(b: ChessBoard, white: bool, i: u64)
    requires
        i < 64,
        occ_at(own_pawns(b, white), i as int),
    ensures
        all_moves_ok(b, white, pawn_dbl(b, white, i)),
{
    let t1: int = if white {
        i + 8
    } else {
        i - 8
    };
    let t2: int = if white {
        i + 16
    } else {
        i - 16
    };
    let home: bool = if white {
        8 <= i && i < 16
    } else {
        48 <= i && i < 56
    };
    if home && !occ_at(all_pieces_spec(b), t1) && !occ_at(all_pieces_spec(b), t2) {
        lemma_single_bit_shl(i);
        lemma_single_bit_shl(t2 as u64);
        lemma_rank_bits(t2 as u64);
        if white {
            lemma_move_ok_pawn_white(b, sq_bit(i as int), sq_bit(t2), true);
        } else {
            lemma_move_ok_pawn_black(b, sq_bit(i as int), sq_bit(t2), true);
        }
    }
}

proof fn lemma_pawn_ep_ok(b: ChessBoard, white: bool, i: u64, a: int)
    requires
        i < 64,
        occ_at(own_pawns(b, white), i as int),
    ensures
        all_moves_ok(b, white, pawn_ep(b, white, i, a)),
{
    let on_rank: bool = if white {
        32 <= i && i < 40
    } else {
        24 <= i && i < 32
    };
    let dest: int = if white {
        a + 8
    } else {
        a - 8
    };
    if on_rank && 0 <= a && a / 8 == i / 8 && occ_at(own_pawns(b, !white), a) && occ_at(
        b.prev_double_push_pawns,
        a,
    ) && !occ_at(all_pieces_spec(b), dest) {
        lemma_single_bit_shl(i);
        lemma_single_bit_shl(a as u64);
        lemma_rank_bits(a as u64);
        lemma_sq_shift(a as u64);
        if white {
            lemma_move_ok_ep_white(b, sq_bit(i as int), sq_bit(a));
        } else {
            lemma_move_ok_ep_black(b, sq_bit(i as int), sq_bit(a));
        }
    }
}

proof fn lemma_pawn_sq_ok(b: ChessBoard, white: bool, i: u64)
    requires
        i < 64,
        occ_at(own_pawns(b, white), i as int),
    ensures
        all_moves_ok(b, white, pawn_sq_moves(b, white, i)),
{
    if 8 <= i && i < 56 {
        let c1: int = if white {
            i + 9
        } else {
            i - 7
        };
        let c2: int = if white {
            i + 7
        } else {
            i - 9
        };
        lemma_pawn_cap_ok(b, white, i, c1, 1, 7);
        lemma_pawn_cap_ok(b, white, i, c2, 0, 6);
        lemma_pawn_fwd_ok(b, white, i);
        lemma_pawn_dbl_ok(b, white, i);
        lemma_pawn_ep_ok(b, white, i, i - 1);
        lemma_pawn_ep_ok(b, white, i, i + 1);
        let s1 = pawn_cap(b, white, i, c1, 1, 7);
        let s2 = pawn_cap(b, white, i, c2, 0, 6);
        let s3 = pawn_fwd(b, white, i);
        let s4 = pawn_dbl(b, white, i);
        let s5 = pawn_ep(b, white, i, i - 1);
        let s6 = pawn_ep(b, white, i, i + 1);
        lemma_all_ok_concat(b, white, s1, s2);
        lemma_all_ok_concat(b, white, s1 + s2, s3);
        lemma_all_ok_concat(b, white, s1 + s2 + s3, s4);
        lemma_all_ok_concat(b, white, s1 + s2 + s3 + s4, s5);
        lemma_all_ok_concat(b, white, s1 + s2 + s3 + s4 + s5, s6);
    }
}

proof fn lemma_sq_ok(b: ChessBoard, white: bool, p: Piece, i: u64)
    requires
        i < 64,
        occ_at(own_bb(b, white, p), i as int),
    ensures
        all_moves_ok(b, white, sq_moves(b, white, p, i)),
{
    match p {
        Piece::Pawn => lemma_pawn_sq_ok(b, white, i),
        Piece::Knight => lemma_knight_sq_ok(b, white, i),
        Piece::King => lemma_king_sq_ok(b, white, i),
        Piece::Rook => lemma_slider_sq_ok(b, white, p, i),
        Piece::Bishop => lemma_slider_sq_ok(b, white, p, i),
        Piece::Queen => lemma_slider_sq_ok(b, white, p, i),
    }
}

proof fn lemma_scan_ok(b: ChessBoard, white: bool, p: Piece, n: u64)
    requires
        n <= 64,
    ensures
        all_moves_ok(b, white, scan_moves(b, white, p, n)),
    decreases n,
{
    if n > 0 {
        lemma_scan_ok(b, white, p, (n - 1) as u64);
        if occ_at(own_bb(b, white, p), n - 1) {
            lemma_sq_ok(b, white, p, (n - 1) as u64);
            lemma_all_ok_concat(
                b,
                white,
                scan_moves(b, white, p, (n - 1) as u64),
                sq_moves(b, white, p, (n - 1) as u64),
            );
        } else {
            lemma_all_ok_concat(b, white, scan_moves(b, white, p, (n - 1) as u64), Seq::empty());
        }
    }
}

proof fn lemma_castle_seq_ok(b: ChessBoard, white: bool)
    ensures
        all_moves_ok(b, white, castle_seq(b, white)),
{
    if castle_ok(b, white, true) {
        lemma_move_ok_castle(b, white, true);
    }
    if castle_ok(b, white, false) {
        lemma_move_ok_castle(b, white, false);
    }
    let s1: Seq<ChessBoard> = if castle_ok(b, white, true) {
        seq![spec_castle(b, white, true)]
    } else {
        Seq::empty()
    };
    let s2: Seq<ChessBoard> = if castle_ok(b, white, false) {
        seq![spec_castle(b, white, false)]
    } else {
        Seq::empty()
    };
    lemma_all_ok_concat(b, white, s1, s2);
}

/// Every pseudo-legal move satisfies [`move_ok`]: this is the engine's
/// central per-move guarantee, covering the side-to-move flip, the absence
/// of self-capture, preservation of board well-formedness, king handling
/// and the en passant bookkeeping.
pub proof fn lemma_pseudo_moves_ok(b: ChessBoard, white: bool)
    ensures
        all_moves_ok(b, white, pseudo_moves(b, white)),
{
    lemma_scan_ok(b, white, Piece::Pawn, 64);
    lemma_scan_ok(b, white, Piece::Rook, 64);
    lemma_scan_ok(b, white, Piece::Knight, 64);
    lemma_scan_ok(b, white, Piece::Bishop, 64);
    lemma_scan_ok(b, white, Piece::Queen, 64);
    lemma_scan_ok(b, white, Piece::King, 64);
    lemma_castle_seq_ok(b, white);
    let s1 = scan_moves(b, white, Piece::Pawn, 64);
    let s2 = scan_moves(b, white, Piece::Rook, 64);
    let s3 = scan_moves(b, white, Piece::Knight, 64);
    let s4 = scan_moves(b, white, Piece::Bishop, 64);
    let s5 = scan_moves(b, white, Piece::Queen, 64);
    let s6 = scan_moves(b, white, Piece::King, 64);
    let s7 = castle_seq(b, white);
    lemma_all_ok_concat(b, white, s6, s7);
    lemma_all_ok_concat(b, white, s1, s2);
    lemma_all_ok_concat(b, white, s1 + s2, s3);
    lemma_all_ok_concat(b, white, s1 + s2 + s3, s4);
    lemma_all_ok_concat(b, white, s1 + s2 + s3 + s4, s5);
    lemma_all_ok_concat(b, white, s1 + s2 + s3 + s4 + s5, s6 + s7);
}

} // verus!

verus! {

proof fn lemma_all_ok_survivors_white(b: ChessBoard, white: bool, s: Seq<ChessBoard>)
    requires
        all_moves_ok(b, white, s),
    ensures
        all_moves_ok(b, white, survivors_white(s)),
        forall|i: int|
            0 <= i < survivors_white(s).len() ==> !white_in_check(
                #[trigger] survivors_white(s)[i],
            ),
        forall|i: int|
            0 <= i < survivors_white(s).len() ==> s.contains(#[trigger] survivors_white(s)[i]),
    decreases s.len(),
{
    if s.len() > 0 {
        assert forall|i: int| 0 <= i < s.drop_last().len() implies move_ok(
            b,
            white,
            #[trigger] s.drop_last()[i],
        ) by {
            assert(s.drop_last()[i] == s[i]);
        }
        lemma_all_ok_survivors_white(b, white, s.drop_last());
        assert forall|i: int|
            0 <= i < survivors_white(s.drop_last()).len() implies s.contains(
            #[trigger] survivors_white(s.drop_last())[i],
        ) by {
            let j = choose|j: int|
                0 <= j < s.drop_last().len() && s.drop_last()[j] == survivors_white(
                    s.drop_last(),
                )[i];
            assert(s[j] == survivors_white(s.drop_last())[i]);
        }
        if !white_in_check(s.last()) {
            assert(s[s.len() - 1] == s.last());
        }
    }
}

proof fn lemma_all_ok_survivors_black(b: ChessBoard, white: bool, s: Seq<ChessBoard>)
    requires
        all_moves_ok(b, white, s),
    ensures
        all_moves_ok(b, white, survivors_black(s)),
        forall|i: int|
            0 <= i < survivors_black(s).len() ==> !black_in_check(
                #[trigger] survivors_black(s)[i],
            ),
        forall|i: int|
            0 <= i < survivors_black(s).len() ==> s.contains(#[trigger] survivors_black(s)[i]),
    decreases s.len(),
{
    if s.len() > 0 {
        assert forall|i: int| 0 <= i < s.drop_last().len() implies move_ok(
            b,
            white,
            #[trigger] s.drop_last()[i],
        ) by {
            assert(s.drop_last()[i] == s[i]);
        }
        lemma_all_ok_survivors_black(b, white, s.drop_last());
        assert forall|i: int|
            0 <= i < survivors_black(s.drop_last()).len() implies s.contains(
            #[trigger] survivors_black(s.drop_last())[i],
        ) by {
            let j = choose|j: int|
                0 <= j < s.drop_last().len() && s.drop_last()[j] == survivors_black(
                    s.drop_last(),
                )[i];
            assert(s[j] == survivors_black(s.drop_last())[i]);
        }
        if !black_in_check(s.last()) {
            assert(s[s.len() - 1] == s.last());
        }
    }
}

/// Every legal move flips the side to move.
pub proof fn lemma_legal_side_flip(b: ChessBoard)
    ensures
        forall|i: int|
            0 <= i < legal_spec(b).len() ==> #[trigger] legal_spec(b)[i].white_to_move
                == !b.white_to_move,
{
    if b.white_to_move {
        lemma_pseudo_moves_ok(b, true);
        lemma_all_ok_survivors_white(b, true, pseudo_moves(b, true));
    } else {
        lemma_pseudo_moves_ok(b, false);
        lemma_all_ok_survivors_black(b, false, pseudo_moves(b, false));
    }
}

/// The standard initial arrangement is well formed, with one king each,
/// white to move and no double push recorded.
pub proof fn lemma_initial_position_ok()
    ensures
        wf_board(init_board()),
        is_single_bit(init_board().white_king),
        is_single_bit(init_board().black_king),
        init_board().white_to_move,
        init_board().prev_double_push_pawns == 0,
{
    assert(0xFF00u64 & 0x81u64 == 0 && 0xFF00u64 & 0x42u64 == 0 && 0xFF00u64 & 0x24u64 == 0
        && 0xFF00u64 & 0x8u64 == 0 && 0xFF00u64 & 0x10u64 == 0 && 0x81u64 & 0x42u64 == 0 && 0x81u64
        & 0x24u64 == 0 && 0x81u64 & 0x8u64 == 0 && 0x81u64 & 0x10u64 == 0 && 0x42u64 & 0x24u64 == 0
        && 0x42u64 & 0x8u64 == 0 && 0x42u64 & 0x10u64 == 0 && 0x24u64 & 0x8u64 == 0 && 0x24u64
        & 0x10u64 == 0 && 0x8u64 & 0x10u64 == 0) by (bit_vector);
    assert(0xFF000000000000u64 & 0x8100000000000000u64 == 0 && 0xFF000000000000u64
        & 0x4200000000000000u64 == 0 && 0xFF000000000000u64 & 0x2400000000000000u64 == 0
        && 0xFF000000000000u64 & 0x800000000000000u64 == 0 && 0xFF000000000000u64
        & 0x1000000000000000u64 == 0 && 0x8100000000000000u64 & 0x4200000000000000u64 == 0
        && 0x8100000000000000u64 & 0x2400000000000000u64 == 0 && 0x8100000000000000u64
        & 0x800000000000000u64 == 0 && 0x8100000000000000u64 & 0x1000000000000000u64 == 0
        && 0x4200000000000000u64 & 0x2400000000000000u64 == 0 && 0x4200000000000000u64
        & 0x800000000000000u64 == 0 && 0x4200000000000000u64 & 0x1000000000000000u64 == 0
        && 0x2400000000000000u64 & 0x800000000000000u64 == 0 && 0x2400000000000000u64
        & 0x1000000000000000u64 == 0 && 0x800000000000000u64 & 0x1000000000000000u64 == 0) by (bit_vector);
    assert((0xFF00u64 | 0x81u64 | 0x42u64 | 0x24u64 | 0x8u64 | 0x10u64) & (0xFF000000000000u64
        | 0x8100000000000000u64 | 0x4200000000000000u64 | 0x2400000000000000u64
        | 0x800000000000000u64 | 0x1000000000000000u64) == 0 && is_single_bit(0x10u64)
        && is_single_bit(0x1000000000000000u64)) by (bit_vector);
}

/// No self-capture: a pseudo-legal move never lands on the mover's own
/// piece, so the mover's piece count is unchanged by its own move.
pub proof fn lemma_no_self_capture(b: ChessBoard, white: bool)
    requires
        wf_board(b),
    ensures
        forall|i: int|
            0 <= i < pseudo_moves(b, white).len() ==> pop64(
                own_all(#[trigger] pseudo_moves(b, white)[i], white),
            ) == pop64(own_all(b, white)),
{
    lemma_pseudo_moves_ok(b, white);
}

/// Bitboard exclusivity: every position a pseudo-legal generator produces
/// from a well-formed position is well formed — the twelve piece bitboards
/// stay pairwise disjoint, so every reachable position keeps the invariant.
pub proof fn lemma_moves_preserve_wf(b: ChessBoard, white: bool)
    requires
        wf_board(b),
    ensures
        forall|i: int| 0 <= i < pseudo_moves(b, white).len() ==> wf_board(
            #[trigger] pseudo_moves(b, white)[i],
        ),
{
    lemma_pseudo_moves_ok(b, white);
}

/// King count invariant: from a well-formed position with one king a side,
/// where the side to move cannot capture the opposing king outright (true
/// of every position reached by a legal move), each legal move again yields
/// a position with one king a side that satisfies the same conditions, so
/// the invariant carries along every legal line from the initial position.
pub proof fn lemma_legal_moves_preserve_kings(b: ChessBoard)
    requires
        wf_board(b),
        is_single_bit(b.white_king),
        is_single_bit(b.black_king),
        b.white_to_move ==> !black_in_check(b),
        !b.white_to_move ==> !white_in_check(b),
    ensures
        forall|i: int|
            {
                let q = #[trigger] legal_spec(b)[i];
                0 <= i < legal_spec(b).len() ==> {
                    &&& wf_board(q)
                    &&& is_single_bit(q.white_king)
                    &&& is_single_bit(q.black_king)
                    &&& (q.white_to_move ==> !black_in_check(q))
                    &&& (!q.white_to_move ==> !white_in_check(q))
                }
            },
{
    if b.white_to_move {
        lemma_pseudo_moves_ok(b, true);
        lemma_all_ok_survivors_white(b, true, pseudo_moves(b, true));
        assert forall|i: int| 0 <= i < legal_spec(b).len() implies is_single_bit(
            #[trigger] legal_spec(b)[i].black_king,
        ) && legal_spec(b)[i].black_king == b.black_king by {
            let q = legal_spec(b)[i];
            assert(pseudo_moves(b, true).contains(q));
            let j = choose|j: int|
                0 <= j < pseudo_moves(b, true).len() && pseudo_moves(b, true)[j] == q;
            if q.black_king == 0 {
                assert(pseudo_moves(b, true)[j].black_king == 0);
                assert(black_in_check(b));
            }
        }
    } else {
        lemma_pseudo_moves_ok(b, false);
        lemma_all_ok_survivors_black(b, false, pseudo_moves(b, false));
        assert forall|i: int| 0 <= i < legal_spec(b).len() implies is_single_bit(
            #[trigger] legal_spec(b)[i].white_king,
        ) && legal_spec(b)[i].white_king == b.white_king by {
            let q = legal_spec(b)[i];
            assert(pseudo_moves(b, false).contains(q));
            let j = choose|j: int|
                0 <= j < pseudo_moves(b, false).len() && pseudo_moves(b, false)[j] == q;
            if q.white_king == 0 {
                assert(pseudo_moves(b, false)[j].white_king == 0);
                assert(white_in_check(b));
            }
        }
    }
}

/// En passant window, closing side: when no double push is on record, every
/// pseudo-legal move captures only on its own destination square — the
/// en passant capture, which takes a pawn away from the destination, is
/// generated on the ply right after the double push and never later.
pub proof fn lemma_no_ep_without_double_push(b: ChessBoard, white: bool)
    requires
        wf_board(b),
        b.prev_double_push_pawns == 0,
    ensures
        forall|i: int|
            0 <= i < pseudo_moves(b, white).len() ==> opp_all(
                #[trigger] pseudo_moves(b, white)[i],
                white,
            ) == opp_all(b, white) & !own_all(pseudo_moves(b, white)[i], white),
{
    lemma_pseudo_moves_ok(b, white);
}

/// En passant window, opening side: after any move, the double-push record
/// is either empty or exactly the moved pawn's destination on its
/// double-push rank, so the record never accumulates history.
pub proof fn lemma_double_push_record(b: ChessBoard, white: bool)
    ensures
        forall|i: int|
            {
                let q = #[trigger] pseudo_moves(b, white)[i];
                0 <= i < pseudo_moves(b, white).len() && q.prev_double_push_pawns != 0 ==> {
                    &&& is_single_bit(q.prev_double_push_pawns)
                    &&& q.prev_double_push_pawns & own_pawns(q, white) == q.prev_double_push_pawns
                    &&& (if white {
                        q.prev_double_push_pawns & 0xFF000000u64 == q.prev_double_push_pawns
                    } else {
                        q.prev_double_push_pawns & 0xFF00000000u64 == q.prev_double_push_pawns
                    })
                }
            },
{
    lemma_pseudo_moves_ok(b, white);
}

/// Castling denial on an attacked path: when the opponent attacks a square
/// the king stands on or crosses, that wing's castle disappears from the
/// king's move list while the other wing's castle is untouched.
pub proof fn lemma_castle_denied_on_attacked_path(b: ChessBoard)
    ensures
        attack_mask(b, false) & (SQ_E1 | SQ_F1 | SQ_G1) != 0 ==> !castle_ok(b, true, true)
            && king_moves_spec(b, true) == scan_moves(b, true, Piece::King, 64) + (if castle_ok(
            b,
            true,
            false,
        ) {
            seq![spec_castle(b, true, false)]
        } else {
            Seq::empty()
        }),
        attack_mask(b, false) & (SQ_C1 | SQ_D1 | SQ_E1) != 0 ==> !castle_ok(b, true, false)
            && king_moves_spec(b, true) == scan_moves(b, true, Piece::King, 64) + (if castle_ok(
            b,
            true,
            true,
        ) {
            seq![spec_castle(b, true, true)]
        } else {
            Seq::empty()
        }),
        attack_mask(b, true) & (SQ_E8 | SQ_F8 | SQ_G8) != 0 ==> !castle_ok(b, false, true)
            && king_moves_spec(b, false) == scan_moves(b, false, Piece::King, 64) + (if castle_ok(
            b,
            false,
            false,
        ) {
            seq![spec_castle(b, false, false)]
        } else {
            Seq::empty()
        }),
        attack_mask(b, true) & (SQ_C8 | SQ_D8 | SQ_E8) != 0 ==> !castle_ok(b, false, false)
            && king_moves_spec(b, false) == scan_moves(b, false, Piece::King, 64) + (if castle_ok(
            b,
            false,
            true,
        ) {
            seq![spec_castle(b, false, true)]
        } else {
            Seq::empty()
        }),
{
    if attack_mask(b, false) & (SQ_E1 | SQ_F1 | SQ_G1) != 0 {
        assert(king_moves_spec(b, true) =~= scan_moves(b, true, Piece::King, 64) + (if castle_ok(
            b,
            true,
            false,
        ) {
            seq![spec_castle(b, true, false)]
        } else {
            Seq::empty()
        }));
    }
    if attack_mask(b, false) & (SQ_C1 | SQ_D1 | SQ_E1) != 0 {
        assert(king_moves_spec(b, true) =~= scan_moves(b, true, Piece::King, 64) + (if castle_ok(
            b,
            true,
            true,
        ) {
            seq![spec_castle(b, true, true)]
        } else {
            Seq::empty()
        }));
    }
    if attack_mask(b, true) & (SQ_E8 | SQ_F8 | SQ_G8) != 0 {
        assert(king_moves_spec(b, false) =~= scan_moves(b, false, Piece::King, 64) + (if castle_ok(
            b,
            false,
            false,
        ) {
            seq![spec_castle(b, false, false)]
        } else {
            Seq::empty()
        }));
    }
    if attack_mask(b, true) & (SQ_C8 | SQ_D8 | SQ_E8) != 0 {
        assert(king_moves_spec(b, false) =~= scan_moves(b, false, Piece::King, 64) + (if castle_ok(
            b,
            false,
            true,
        ) {
            seq![spec_castle(b, false, true)]
        } else {
            Seq::empty()
        }));
    }
}

/// Check detection symmetry, white king: the check test — some reply
/// removes the king — agrees with a direct scan of the opponent's
/// destinations for the king's square.
pub proof fn lemma_check_detection_symmetry_white(b: ChessBoard)
    requires
        wf_board(b),
        is_single_bit(b.white_king),
    ensures
        white_in_check(b) <==> (exists|i: int|
            0 <= i < pseudo_moves(b, false).len() && all_black_spec(
                #[trigger] pseudo_moves(b, false)[i],
            ) & b.white_king != 0),
{
    lemma_pseudo_moves_ok(b, false);
    if white_in_check(b) {
        let i = choose|i: int|
            0 <= i < pseudo_moves(b, false).len() && pseudo_moves(b, false)[i].white_king == 0;
        assert(all_black_spec(pseudo_moves(b, false)[i]) & b.white_king != 0);
    }
    if exists|i: int|
        0 <= i < pseudo_moves(b, false).len() && all_black_spec(
            #[trigger] pseudo_moves(b, false)[i],
        ) & b.white_king != 0 {
        let i = choose|i: int|
            0 <= i < pseudo_moves(b, false).len() && all_black_spec(
                #[trigger] pseudo_moves(b, false)[i],
            ) & b.white_king != 0;
        assert(pseudo_moves(b, false)[i].white_king == 0);
    }
}

/// Check detection symmetry, black king.
pub proof fn lemma_check_detection_symmetry_black(b: ChessBoard)
    requires
        wf_board(b),
        is_single_bit(b.black_king),
    ensures
        black_in_check(b) <==> (exists|i: int|
            0 <= i < pseudo_moves(b, true).len() && all_white_spec(
                #[trigger] pseudo_moves(b, true)[i],
            ) & b.black_king != 0),
{
    lemma_pseudo_moves_ok(b, true);
    if black_in_check(b) {
        let i = choose|i: int|
            0 <= i < pseudo_moves(b, true).len() && pseudo_moves(b, true)[i].black_king == 0;
        assert(all_white_spec(pseudo_moves(b, true)[i]) & b.black_king != 0);
    }
    if exists|i: int|
        0 <= i < pseudo_moves(b, true).len() && all_white_spec(
            #[trigger] pseudo_moves(b, true)[i],
        ) & b.black_king != 0 {
        let i = choose|i: int|
            0 <= i < pseudo_moves(b, true).len() && all_white_spec(
                #[trigger] pseudo_moves(b, true)[i],
            ) & b.black_king != 0;
        assert(pseudo_moves(b, true)[i].black_king == 0);
    }
}

} // verus!
