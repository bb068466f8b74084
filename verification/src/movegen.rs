//! Colour-generic move generation core.
//!
//! Every candidate move is described twice: once by a specification function
//! that defines the exact resulting position (and, for the generators, the
//! exact sequence of positions in generation order), and once by executable
//! code whose contract says it returns precisely that value. All higher-level
//! contracts — legality, perft, search — are stated over these specification
//! functions.
use vstd::prelude::*;
use crate::bits::{is_single_bit, sq_bit, occ_at, lemma_single_bit_shl};
use crate::board::{ChessBoard, Constants, spec_remove_white, spec_remove_black, all_white_spec,
    all_black_spec, all_pieces_spec, own_all, opp_all, own_pawns};

verus! {

/// Single-square masks used by castling.
pub const SQ_A1: u64 = 0x1;

pub const SQ_B1: u64 = 0x2;

pub const SQ_C1: u64 = 0x4;

pub const SQ_D1: u64 = 0x8;

pub const SQ_E1: u64 = 0x10;

pub const SQ_F1: u64 = 0x20;

pub const SQ_G1: u64 = 0x40;

pub const SQ_H1: u64 = 0x80;

pub const SQ_A8: u64 = 0x0100000000000000;

pub const SQ_B8: u64 = 0x0200000000000000;

pub const SQ_C8: u64 = 0x0400000000000000;

pub const SQ_D8: u64 = 0x0800000000000000;

pub const SQ_E8: u64 = 0x1000000000000000;

pub const SQ_F8: u64 = 0x2000000000000000;

pub const SQ_G8: u64 = 0x4000000000000000;

pub const SQ_H8: u64 = 0x8000000000000000;

/// The six piece kinds.
#[derive(Clone, Copy, Debug)]
pub enum Piece {
    Pawn,
    Rook,
    Knight,
    Bishop,
    Queen,
    King,
}

/// The bitboard of the moving side's pieces of kind `p`.
pub open spec fn own_bb(b: ChessBoard, white: bool, p: Piece) -> u64 {
    match p {
        Piece::Pawn => if white {
            b.white_pawns
        } else {
            b.black_pawns
        },
        Piece::Rook => if white {
            b.white_rooks
        } else {
            b.black_rooks
        },
        Piece::Knight => if white {
            b.white_knights
        } else {
            b.black_knights
        },
        Piece::Bishop => if white {
            b.white_bishops
        } else {
            b.black_bishops
        },
        Piece::Queen => if white {
            b.white_queens
        } else {
            b.black_queens
        },
        Piece::King => if white {
            b.white_king
        } else {
            b.black_king
        },
    }
}

/// The board with the moving side's bitboard of kind `p` replaced by `v`.
pub open spec fn with_own_bb(b: ChessBoard, white: bool, p: Piece, v: u64) -> ChessBoard {
    match p {
        Piece::Pawn => if white {
            ChessBoard { white_pawns: v, ..b }
        } else {
            ChessBoard { black_pawns: v, ..b }
        },
        Piece::Rook => if white {
            ChessBoard { white_rooks: v, ..b }
        } else {
            ChessBoard { black_rooks: v, ..b }
        },
        Piece::Knight => if white {
            ChessBoard { white_knights: v, ..b }
        } else {
            ChessBoard { black_knights: v, ..b }
        },
        Piece::Bishop => if white {
            ChessBoard { white_bishops: v, ..b }
        } else {
            ChessBoard { black_bishops: v, ..b }
        },
        Piece::Queen => if white {
            ChessBoard { white_queens: v, ..b }
        } else {
            ChessBoard { black_queens: v, ..b }
        },
        Piece::King => if white {
            ChessBoard { white_king: v, ..b }
        } else {
            ChessBoard { black_king: v, ..b }
        },
    }
}

/// Removes the opposing piece standing on `t`, if any.
pub open spec fn spec_capture_at(b: ChessBoard, white: bool, t: u64) -> ChessBoard {
    if opp_all(b, white) & t != 0 {
        if white {
            spec_remove_black(b, t)
        } else {
            spec_remove_white(b, t)
        }
    } else {
        b
    }
}

/// The position after one ordinary move of a piece of kind `p` from the
/// square-mask `f` to the square-mask `t`: the piece's bitboard trades `f`
/// for `t`, any opposing piece on `t` is captured, the side to move flips,
/// the double-push record is cleared, and moving the king marks it moved.
pub open spec fn spec_move(b: ChessBoard, white: bool, p: Piece, f: u64, t: u64) -> ChessBoard {
    let moved = with_own_bb(b, white, p, (own_bb(b, white, p) & !f) | t);
    let captured = spec_capture_at(moved, white, t);
    ChessBoard {
        white_to_move: !b.white_to_move,
        prev_double_push_pawns: 0,
        white_moved_king: b.white_moved_king || (white && p is King),
        black_moved_king: b.black_moved_king || (!white && p is King),
        ..captured
    }
}

/// The position after a pawn move from `f` to `t`. A pawn reaching the last
/// rank becomes a queen; a double push (`dbl`) records its destination in
/// `prev_double_push_pawns` so that the reply may capture it en passant.
pub open spec fn spec_pawn_move(b: ChessBoard, white: bool, f: u64, t: u64, dbl: bool) -> ChessBoard {
    let moved = if white {
        if t & Constants::EIGHT_RANK != 0 {
            ChessBoard { white_pawns: b.white_pawns & !f, white_queens: b.white_queens | t, ..b }
        } else {
            ChessBoard { white_pawns: (b.white_pawns & !f) | t, ..b }
        }
    } else {
        if t & Constants::FIRST_RANK != 0 {
            ChessBoard { black_pawns: b.black_pawns & !f, black_queens: b.black_queens | t, ..b }
        } else {
            ChessBoard { black_pawns: (b.black_pawns & !f) | t, ..b }
        }
    };
    let captured = spec_capture_at(moved, white, t);
    ChessBoard {
        white_to_move: !b.white_to_move,
        prev_double_push_pawns: if dbl {
            t
        } else {
            0
        },
        ..captured
    }
}

/// The position after an en passant capture: the pawn on `f` moves to the
/// square behind the opposing pawn on `csq`, which leaves the board.
pub open spec fn spec_ep_move(b: ChessBoard, white: bool, f: u64, csq: u64) -> ChessBoard {
    if white {
        ChessBoard {
            white_to_move: !b.white_to_move,
            prev_double_push_pawns: 0,
            white_pawns: (b.white_pawns & !f) | (csq << 8u64),
            black_pawns: b.black_pawns & !csq,
            ..b
        }
    } else {
        ChessBoard {
            white_to_move: !b.white_to_move,
            prev_double_push_pawns: 0,
            black_pawns: (b.black_pawns & !f) | (csq >> 8u64),
            white_pawns: b.white_pawns & !csq,
            ..b
        }
    }
}

/// The position after castling: king and rook relocate together and both
/// bookkeeping flags of that wing are set.
pub open spec fn spec_castle(b: ChessBoard, white: bool, kingside: bool) -> ChessBoard {
    if white {
        if kingside {
            ChessBoard {
                white_to_move: !b.white_to_move,
                prev_double_push_pawns: 0,
                white_king: SQ_G1,
                white_moved_king: true,
                white_moved_H_rook: true,
                white_rooks: (b.white_rooks & !SQ_H1) | SQ_F1,
                ..b
            }
        } else {
            ChessBoard {
                white_to_move: !b.white_to_move,
                prev_double_push_pawns: 0,
                white_king: SQ_C1,
                white_moved_king: true,
                white_moved_A_rook: true,
                white_rooks: (b.white_rooks & !SQ_A1) | SQ_D1,
                ..b
            }
        }
    } else {
        if kingside {
            ChessBoard {
                white_to_move: !b.white_to_move,
                prev_double_push_pawns: 0,
                black_king: SQ_G8,
                black_moved_king: true,
                black_moved_H_rook: true,
                black_rooks: (b.black_rooks & !SQ_H8) | SQ_F8,
                ..b
            }
        } else {
            ChessBoard {
                white_to_move: !b.white_to_move,
                prev_double_push_pawns: 0,
                black_king: SQ_C8,
                black_moved_king: true,
                black_moved_A_rook: true,
                black_rooks: (b.black_rooks & !SQ_A8) | SQ_D8,
                ..b
            }
        }
    }
}

pub fn own_bb_exec(b: &ChessBoard, white: bool, p: Piece) -> (r: u64)
    ensures
        r == own_bb(*b, white, p),
{
    match p {
        Piece::Pawn => if white {
            b.white_pawns
        } else {
            b.black_pawns
        },
        Piece::Rook => if white {
            b.white_rooks
        } else {
            b.black_rooks
        },
        Piece::Knight => if white {
            b.white_knights
        } else {
            b.black_knights
        },
        Piece::Bishop => if white {
            b.white_bishops
        } else {
            b.black_bishops
        },
        Piece::Queen => if white {
            b.white_queens
        } else {
            b.black_queens
        },
        Piece::King => if white {
            b.white_king
        } else {
            b.black_king
        },
    }
}

fn set_own_bb_exec(b: &ChessBoard, white: bool, p: Piece, v: u64) -> (r: ChessBoard)
    ensures
        r == with_own_bb(*b, white, p, v),
{
    let mut nb = *b;
    match p {
        Piece::Pawn => if white {
            nb.white_pawns = v;
        } else {
            nb.black_pawns = v;
        },
        Piece::Rook => if white {
            nb.white_rooks = v;
        } else {
            nb.black_rooks = v;
        },
        Piece::Knight => if white {
            nb.white_knights = v;
        } else {
            nb.black_knights = v;
        },
        Piece::Bishop => if white {
            nb.white_bishops = v;
        } else {
            nb.black_bishops = v;
        },
        Piece::Queen => if white {
            nb.white_queens = v;
        } else {
            nb.black_queens = v;
        },
        Piece::King => if white {
            nb.white_king = v;
        } else {
            nb.black_king = v;
        },
    }
    nb
}

pub fn own_all_exec(b: &ChessBoard, white: bool) -> (r: u64)
    ensures
        r == own_all(*b, white),
{
    if white {
        b.get_all_white_pieces()
    } else {
        b.get_all_black_pieces()
    }
}

pub fn opp_all_exec(b: &ChessBoard, white: bool) -> (r: u64)
    ensures
        r == opp_all(*b, white),
{
    if white {
        b.get_all_black_pieces()
    } else {
        b.get_all_white_pieces()
    }
}

/// Applies the capture step of a move whose destination mask is `t`.
fn capture_at_exec(nb: &mut ChessBoard, white: bool, t: u64)
    requires
        is_single_bit(t),
    ensures
        *final(nb) == spec_capture_at(*old(nb), white, t),
{
    if white {
        if nb.get_all_black_pieces() & t != 0 {
            nb.remove_black_piece(t);
        }
    } else {
        if nb.get_all_white_pieces() & t != 0 {
            nb.remove_white_piece(t);
        }
    }
}

/// Builds the position after one ordinary move (see [`spec_move`]).
pub fn mk_move(b: &ChessBoard, white: bool, p: Piece, f: u64, t: u64) -> (r: ChessBoard)
    requires
        is_single_bit(t),
    ensures
        r == spec_move(*b, white, p, f, t),
{
    let v = (own_bb_exec(b, white, p) & !f) | t;
    let mut nb = set_own_bb_exec(b, white, p, v);
    capture_at_exec(&mut nb, white, t);
    nb.white_to_move = !b.white_to_move;
    nb.prev_double_push_pawns = 0;
    match p {
        Piece::King => if white {
            nb.white_moved_king = true;
        } else {
            nb.black_moved_king = true;
        },
        _ => {},
    }
    nb
}

/// Builds the position after one pawn move (see [`spec_pawn_move`]).
pub fn mk_pawn_move(b: &ChessBoard, white: bool, f: u64, t: u64, dbl: bool) -> (r: ChessBoard)
    requires
        is_single_bit(t),
    ensures
        r == spec_pawn_move(*b, white, f, t, dbl),
{
    let mut nb = *b;
    if white {
        if t & Constants::EIGHT_RANK != 0 {
            nb.white_pawns = b.white_pawns & !f;
            nb.white_queens = b.white_queens | t;
        } else {
            nb.white_pawns = (b.white_pawns & !f) | t;
        }
    } else {
        if t & Constants::FIRST_RANK != 0 {
            nb.black_pawns = b.black_pawns & !f;
            nb.black_queens = b.black_queens | t;
        } else {
            nb.black_pawns = (b.black_pawns & !f) | t;
        }
    }
    capture_at_exec(&mut nb, white, t);
    nb.white_to_move = !b.white_to_move;
    nb.prev_double_push_pawns = if dbl {
        t
    } else {
        0
    };
    nb
}

/// Builds the position after an en passant capture (see [`spec_ep_move`]).
pub fn mk_ep_move(b: &ChessBoard, white: bool, f: u64, csq: u64) -> (r: ChessBoard)
    ensures
        r == spec_ep_move(*b, white, f, csq),
{
    let mut nb = *b;
    if white {
        nb.white_pawns = (b.white_pawns & !f) | (csq << 8u64);
        nb.black_pawns = b.black_pawns & !csq;
    } else {
        nb.black_pawns = (b.black_pawns & !f) | (csq >> 8u64);
        nb.white_pawns = b.white_pawns & !csq;
    }
    nb.white_to_move = !b.white_to_move;
    nb.prev_double_push_pawns = 0;
    nb
}

/// Builds the position after castling (see [`spec_castle`]).
pub fn mk_castle(b: &ChessBoard, white: bool, kingside: bool) -> (r: ChessBoard)
    ensures
        r == spec_castle(*b, white, kingside),
{
    let mut nb = *b;
    if white {
        nb.white_moved_king = true;
        if kingside {
            nb.white_king = SQ_G1;
            nb.white_moved_H_rook = true;
            nb.white_rooks = (b.white_rooks & !SQ_H1) | SQ_F1;
        } else {
            nb.white_king = SQ_C1;
            nb.white_moved_A_rook = true;
            nb.white_rooks = (b.white_rooks & !SQ_A1) | SQ_D1;
        }
    } else {
        nb.black_moved_king = true;
        if kingside {
            nb.black_king = SQ_G8;
            nb.black_moved_H_rook = true;
            nb.black_rooks = (b.black_rooks & !SQ_H8) | SQ_F8;
        } else {
            nb.black_king = SQ_C8;
            nb.black_moved_A_rook = true;
            nb.black_rooks = (b.black_rooks & !SQ_A8) | SQ_D8;
        }
    }
    nb.white_to_move = !b.white_to_move;
    nb.prev_double_push_pawns = 0;
    nb
}

} // verus!

verus! {

pub proof fn lemma_rank_file(nr: int, nf: int)
    by (nonlinear_arith)
    requires
        0 <= nf < 8,
        0 <= nr < 8,
    ensures
        (nr * 8 + nf) % 8 == nf,
        (nr * 8 + nf) / 8 == nr,
        0 <= nr * 8 + nf < 64,
{
}

/// One fixed-offset candidate of a knight or king standing on square `i`:
/// the target `i + off` must stay on the board, land on a file between `lo`
/// and `hi` (which rules out wrapping around the A/H boundary), and must not
/// hold a piece of the moving side.
pub open spec fn piece_step(
    b: ChessBoard,
    white: bool,
    p: Piece,
    i: u64,
    off: int,
    lo: int,
    hi: int,
) -> Seq<ChessBoard> {
    let t: int = i + off;
    if 0 <= t && t < 64 && lo <= t % 8 && t % 8 <= hi && !occ_at(own_all(b, white), t) {
        seq![spec_move(b, white, p, sq_bit(i as int), sq_bit(t))]
    } else {
        Seq::empty()
    }
}

fn piece_step_exec(b: &ChessBoard, white: bool, p: Piece, i: u64, off: i64, lo: i64, hi: i64) -> (r:
    Vec<ChessBoard>)
    requires
        i < 64,
        -17 <= off <= 17,
    ensures
        r@ == piece_step(*b, white, p, i, off as int, lo as int, hi as int),
{
    let mut r: Vec<ChessBoard> = Vec::new();
    let t: i64 = i as i64 + off;
    if 0 <= t && t < 64 && lo <= t % 8 && t % 8 <= hi {
        let tm: u64 = 1u64 << (t as u64);
        proof {
            lemma_single_bit_shl(t as u64);
        }
        if own_all_exec(b, white) & tm == 0 {
            let fm: u64 = 1u64 << i;
            r.push(mk_move(b, white, p, fm, tm));
        }
    }
    r
}

/// The eight knight candidates from square `i`, in a fixed order.
pub open spec fn knight_sq_moves(b: ChessBoard, white: bool, i: u64) -> Seq<ChessBoard> {
    piece_step(b, white, Piece::Knight, i, 17, 1, 7) + piece_step(b, white, Piece::Knight, i, 15, 0, 6)
        + piece_step(b, white, Piece::Knight, i, -15, 1, 7) + piece_step(
        b,
        white,
        Piece::Knight,
        i,
        -17,
        0,
        6,
    ) + piece_step(b, white, Piece::Knight, i, 10, 2, 7) + piece_step(
        b,
        white,
        Piece::Knight,
        i,
        -6,
        2,
        7,
    ) + piece_step(b, white, Piece::Knight, i, 6, 0, 5) + piece_step(
        b,
        white,
        Piece::Knight,
        i,
        -10,
        0,
        5,
    )
}

fn knight_sq_exec(b: &ChessBoard, white: bool, i: u64) -> (r: Vec<ChessBoard>)
    requires
        i < 64,
    ensures
        r@ == knight_sq_moves(*b, white, i),
{
    let mut r = piece_step_exec(b, white, Piece::Knight, i, 17, 1, 7);
    let mut m = piece_step_exec(b, white, Piece::Knight, i, 15, 0, 6);
    r.append(&mut m);
    let mut m = piece_step_exec(b, white, Piece::Knight, i, -15, 1, 7);
    r.append(&mut m);
    let mut m = piece_step_exec(b, white, Piece::Knight, i, -17, 0, 6);
    r.append(&mut m);
    let mut m = piece_step_exec(b, white, Piece::Knight, i, 10, 2, 7);
    r.append(&mut m);
    let mut m = piece_step_exec(b, white, Piece::Knight, i, -6, 2, 7);
    r.append(&mut m);
    let mut m = piece_step_exec(b, white, Piece::Knight, i, 6, 0, 5);
    r.append(&mut m);
    let mut m = piece_step_exec(b, white, Piece::Knight, i, -10, 0, 5);
    r.append(&mut m);
    r
}

/// The eight one-square king candidates from square `i`, in a fixed order.
/// Castling is handled separately; squares the king would leave attacked are
/// not filtered here but by the downstream legality check.
pub open spec fn king_step_sq_moves(b: ChessBoard, white: bool, i: u64) -> Seq<ChessBoard> {
    piece_step(b, white, Piece::King, i, 8, 0, 7) + piece_step(b, white, Piece::King, i, -8, 0, 7)
        + piece_step(b, white, Piece::King, i, -1, 0, 6) + piece_step(b, white, Piece::King, i, 1, 1, 7)
        + piece_step(b, white, Piece::King, i, 9, 1, 7) + piece_step(b, white, Piece::King, i, 7, 0, 6)
        + piece_step(b, white, Piece::King, i, -7, 1, 7) + piece_step(b, white, Piece::King, i, -9, 0, 6)
}

fn king_step_sq_exec(b: &ChessBoard, white: bool, i: u64) -> (r: Vec<ChessBoard>)
    requires
        i < 64,
    ensures
        r@ == king_step_sq_moves(*b, white, i),
{
    let mut r = piece_step_exec(b, white, Piece::King, i, 8, 0, 7);
    let mut m = piece_step_exec(b, white, Piece::King, i, -8, 0, 7);
    r.append(&mut m);
    let mut m = piece_step_exec(b, white, Piece::King, i, -1, 0, 6);
    r.append(&mut m);
    let mut m = piece_step_exec(b, white, Piece::King, i, 1, 1, 7);
    r.append(&mut m);
    let mut m = piece_step_exec(b, white, Piece::King, i, 9, 1, 7);
    r.append(&mut m);
    let mut m = piece_step_exec(b, white, Piece::King, i, 7, 0, 6);
    r.append(&mut m);
    let mut m = piece_step_exec(b, white, Piece::King, i, -7, 1, 7);
    r.append(&mut m);
    let mut m = piece_step_exec(b, white, Piece::King, i, -9, 0, 6);
    r.append(&mut m);
    r
}

/// Steps remaining before a ray walking in direction (`df`, `dr`) leaves the
/// board, measured along the axis that the direction makes monotonic.
pub open spec fn edge_dist(cur: u64, df: int, dr: int) -> nat {
    if df == 1 {
        (7 - cur % 8) as nat
    } else if df == -1 {
        (cur % 8) as nat
    } else if dr == 1 {
        if cur / 8 <= 7 {
            (7 - cur / 8) as nat
        } else {
            0
        }
    } else {
        if cur / 8 <= 7 {
            (cur / 8) as nat
        } else {
            0
        }
    }
}

/// The moves of a sliding piece of kind `p` (standing on `fi`) along one
/// ray, continuing from `cur`: one move for every empty square, a final
/// capturing move on the first square held by an opposing piece, and nothing
/// from the first square held by an own piece on.
pub open spec fn ray_moves(
    b: ChessBoard,
    white: bool,
    p: Piece,
    fi: u64,
    cur: u64,
    df: int,
    dr: int,
    fuel: nat,
) -> Seq<ChessBoard>
    decreases fuel,
{
    if fuel == 0 {
        Seq::empty()
    } else {
        let nf: int = cur % 8 + df;
        let nr: int = cur / 8 + dr;
        if 0 <= nf && nf < 8 && 0 <= nr && nr < 8 {
            let t: int = nr * 8 + nf;
            if occ_at(own_all(b, white), t) {
                Seq::empty()
            } else if occ_at(opp_all(b, white), t) {
                seq![spec_move(b, white, p, sq_bit(fi as int), sq_bit(t))]
            } else {
                seq![spec_move(b, white, p, sq_bit(fi as int), sq_bit(t))] + ray_moves(
                    b,
                    white,
                    p,
                    fi,
                    t as u64,
                    df,
                    dr,
                    (fuel - 1) as nat,
                )
            }
        } else {
            Seq::empty()
        }
    }
}

fn ray_moves_exec(
    b: &ChessBoard,
    white: bool,
    p: Piece,
    fi: u64,
    cur: u64,
    df: i64,
    dr: i64,
    fuel: Ghost<nat>,
) -> (r: Vec<ChessBoard>)
    requires
        fi < 64,
        cur < 64,
        -1 <= df <= 1,
        -1 <= dr <= 1,
        df != 0 || dr != 0,
        fuel@ >= edge_dist(cur, df as int, dr as int),
    ensures
        r@ == ray_moves(*b, white, p, fi, cur, df as int, dr as int, fuel@),
    decreases edge_dist(cur, df as int, dr as int),
{
    let mut r: Vec<ChessBoard> = Vec::new();
    let nf: i64 = (cur % 8) as i64 + df;
    let nr: i64 = (cur / 8) as i64 + dr;
    if 0 <= nf && nf < 8 && 0 <= nr && nr < 8 {
        let t: i64 = nr * 8 + nf;
        proof {
            lemma_rank_file(nr as int, nf as int);
            lemma_single_bit_shl(t as u64);
        }
        let tm: u64 = 1u64 << (t as u64);
        if own_all_exec(b, white) & tm == 0 {
            let fm: u64 = 1u64 << fi;
            r.push(mk_move(b, white, p, fm, tm));
            if opp_all_exec(b, white) & tm == 0 {
                let mut rest = ray_moves_exec(
                    b,
                    white,
                    p,
                    fi,
                    t as u64,
                    df,
                    dr,
                    Ghost((fuel@ - 1) as nat),
                );
                r.append(&mut rest);
            }
        }
    }
    r
}

/// The ray moves of a rook, bishop or queen on square `i`, directions in a
/// fixed order: rook up, down, left, right; bishop up-right, up-left,
/// down-right, down-left; queen rook directions then bishop directions.
pub open spec fn slider_sq_moves(b: ChessBoard, white: bool, p: Piece, i: u64) -> Seq<ChessBoard> {
    match p {
        Piece::Rook => ray_moves(b, white, p, i, i, 0, 1, 7) + ray_moves(b, white, p, i, i, 0, -1, 7)
            + ray_moves(b, white, p, i, i, -1, 0, 7) + ray_moves(b, white, p, i, i, 1, 0, 7),
        Piece::Bishop => ray_moves(b, white, p, i, i, 1, 1, 7) + ray_moves(b, white, p, i, i, -1, 1, 7)
            + ray_moves(b, white, p, i, i, 1, -1, 7) + ray_moves(b, white, p, i, i, -1, -1, 7),
        _ => ray_moves(b, white, p, i, i, 0, 1, 7) + ray_moves(b, white, p, i, i, 0, -1, 7)
            + ray_moves(b, white, p, i, i, -1, 0, 7) + ray_moves(b, white, p, i, i, 1, 0, 7)
            + ray_moves(b, white, p, i, i, 1, 1, 7) + ray_moves(b, white, p, i, i, -1, 1, 7)
            + ray_moves(b, white, p, i, i, 1, -1, 7) + ray_moves(b, white, p, i, i, -1, -1, 7),
    }
}

fn slider_sq_exec(b: &ChessBoard, white: bool, p: Piece, i: u64) -> (r: Vec<ChessBoard>)
    requires
        i < 64,
    ensures
        r@ == slider_sq_moves(*b, white, p, i),
{
    match p {
        Piece::Rook => {
            let mut r = ray_moves_exec(b, white, p, i, i, 0, 1, Ghost(7 as nat));
            let mut m = ray_moves_exec(b, white, p, i, i, 0, -1, Ghost(7 as nat));
            r.append(&mut m);
            let mut m = ray_moves_exec(b, white, p, i, i, -1, 0, Ghost(7 as nat));
            r.append(&mut m);
            let mut m = ray_moves_exec(b, white, p, i, i, 1, 0, Ghost(7 as nat));
            r.append(&mut m);
            r
        },
        Piece::Bishop => {
            let mut r = ray_moves_exec(b, white, p, i, i, 1, 1, Ghost(7 as nat));
            let mut m = ray_moves_exec(b, white, p, i, i, -1, 1, Ghost(7 as nat));
            r.append(&mut m);
            let mut m = ray_moves_exec(b, white, p, i, i, 1, -1, Ghost(7 as nat));
            r.append(&mut m);
            let mut m = ray_moves_exec(b, white, p, i, i, -1, -1, Ghost(7 as nat));
            r.append(&mut m);
            r
        },
        _ => {
            let mut r = ray_moves_exec(b, white, p, i, i, 0, 1, Ghost(7 as nat));
            let mut m = ray_moves_exec(b, white, p, i, i, 0, -1, Ghost(7 as nat));
            r.append(&mut m);
            let mut m = ray_moves_exec(b, white, p, i, i, -1, 0, Ghost(7 as nat));
            r.append(&mut m);
            let mut m = ray_moves_exec(b, white, p, i, i, 1, 0, Ghost(7 as nat));
            r.append(&mut m);
            let mut m = ray_moves_exec(b, white, p, i, i, 1, 1, Ghost(7 as nat));
            r.append(&mut m);
            let mut m = ray_moves_exec(b, white, p, i, i, -1, 1, Ghost(7 as nat));
            r.append(&mut m);
            let mut m = ray_moves_exec(b, white, p, i, i, 1, -1, Ghost(7 as nat));
            r.append(&mut m);
            let mut m = ray_moves_exec(b, white, p, i, i, -1, -1, Ghost(7 as nat));
            r.append(&mut m);
            r
        },
    }
}

} // verus!

verus! {

/// A pawn capture candidate from square `i` onto square `t` (passed by the
/// caller as the diagonal neighbour): the target must stay on the board, on
/// a file between `lo` and `hi`, and must hold an opposing piece.
pub open spec fn pawn_cap(b: ChessBoard, white: bool, i: u64, t: int, lo: int, hi: int) -> Seq<
    ChessBoard,
> {
    if 0 <= t && t < 64 && lo <= t % 8 && t % 8 <= hi && occ_at(opp_all(b, white), t) {
        seq![spec_pawn_move(b, white, sq_bit(i as int), sq_bit(t), false)]
    } else {
        Seq::empty()
    }
}

/// A single forward pawn push from `i`, blocked by any piece.
pub open spec fn pawn_fwd(b: ChessBoard, white: bool, i: u64) -> Seq<ChessBoard> {
    let t: int = if white {
        i + 8
    } else {
        i - 8
    };
    if 0 <= t && t < 64 && !occ_at(all_pieces_spec(b), t) {
        seq![spec_pawn_move(b, white, sq_bit(i as int), sq_bit(t), false)]
    } else {
        Seq::empty()
    }
}

/// A double pawn push from the home rank, needing both squares ahead empty.
pub open spec fn pawn_dbl(b: ChessBoard, white: bool, i: u64) -> Seq<ChessBoard> {
    let t1: int = if white {
        i + 8
    } else {
        i - 8
    };
    let t2: int = if white {
        i + 16
    } else {
        i - 16
    };
    let home: bool = if white {
        8 <= i && i < 16
    } else {
        48 <= i && i < 56
    };
    if home && !occ_at(all_pieces_spec(b), t1) && !occ_at(all_pieces_spec(b), t2) {
        seq![spec_pawn_move(b, white, sq_bit(i as int), sq_bit(t2), true)]
    } else {
        Seq::empty()
    }
}

/// An en passant candidate: the capturing pawn on `i` sits on its fifth
/// rank, the square `a` beside it (same rank, so no file wrap) holds an
/// opposing pawn whose double push the previous ply recorded, and the
/// diagonal destination behind that pawn is empty.
pub open spec fn pawn_ep(b: ChessBoard, white: bool, i: u64, a: int) -> Seq<ChessBoard> {
    let on_rank: bool = if white {
        32 <= i && i < 40
    } else {
        24 <= i && i < 32
    };
    let dest: int = if white {
        a + 8
    } else {
        a - 8
    };
    if on_rank && 0 <= a && a / 8 == i / 8 && occ_at(own_pawns(b, !white), a) && occ_at(
        b.prev_double_push_pawns,
        a,
    ) && !occ_at(all_pieces_spec(b), dest) {
        seq![spec_ep_move(b, white, sq_bit(i as int), sq_bit(a))]
    } else {
        Seq::empty()
    }
}

/// All candidate moves of a pawn standing on square `i`, in generation
/// order: capture toward the H side, capture toward the A side, single push,
/// double push, en passant to the A side, en passant to the H side.
pub open spec fn pawn_sq_moves(b: ChessBoard, white: bool, i: u64) -> Seq<ChessBoard> {
    if 8 <= i && i < 56 {
        if white {
            pawn_cap(b, true, i, i + 9, 1, 7) + pawn_cap(b, true, i, i + 7, 0, 6) + pawn_fwd(
                b,
                true,
                i,
            ) + pawn_dbl(b, true, i) + pawn_ep(b, true, i, i - 1) + pawn_ep(b, true, i, i + 1)
        } else {
            pawn_cap(b, false, i, i - 7, 1, 7) + pawn_cap(b, false, i, i - 9, 0, 6) + pawn_fwd(
                b,
                false,
                i,
            ) + pawn_dbl(b, false, i) + pawn_ep(b, false, i, i - 1) + pawn_ep(b, false, i, i + 1)
        }
    } else {
        Seq::empty()
    }
}

fn pawn_cap_exec(b: &ChessBoard, white: bool, i: u64, t: i64, lo: i64, hi: i64) -> (r: Vec<
    ChessBoard,
>)
    requires
        i < 64,
    ensures
        r@ == pawn_cap(*b, white, i, t as int, lo as int, hi as int),
{
    let mut r: Vec<ChessBoard> = Vec::new();
    if 0 <= t && t < 64 && lo <= t % 8 && t % 8 <= hi {
        let tm: u64 = 1u64 << (t as u64);
        proof {
            lemma_single_bit_shl(t as u64);
        }
        if opp_all_exec(b, white) & tm != 0 {
            r.push(mk_pawn_move(b, white, 1u64 << i, tm, false));
        }
    }
    r
}

fn pawn_fwd_exec(b: &ChessBoard, white: bool, i: u64) -> (r: Vec<ChessBoard>)
    requires
        i < 64,
    ensures
        r@ == pawn_fwd(*b, white, i),
{
    let mut r: Vec<ChessBoard> = Vec::new();
    let t: i64 = if white {
        i as i64 + 8
    } else {
        i as i64 - 8
    };
    if 0 <= t && t < 64 {
        let tm: u64 = 1u64 << (t as u64);
        proof {
            lemma_single_bit_shl(t as u64);
        }
        if b.get_all_pieces() & tm == 0 {
            r.push(mk_pawn_move(b, white, 1u64 << i, tm, false));
        }
    }
    r
}

fn pawn_dbl_exec(b: &ChessBoard, white: bool, i: u64) -> (r: Vec<ChessBoard>)
    requires
        i < 64,
    ensures
        r@ == pawn_dbl(*b, white, i),
{
    let mut r: Vec<ChessBoard> = Vec::new();
    let home: bool = if white {
        8 <= i && i < 16
    } else {
        48 <= i && i < 56
    };
    if home {
        let t1: i64 = if white {
            i as i64 + 8
        } else {
            i as i64 - 8
        };
        let t2: i64 = if white {
            i as i64 + 16
        } else {
            i as i64 - 16
        };
        let t1m: u64 = 1u64 << (t1 as u64);
        let t2m: u64 = 1u64 << (t2 as u64);
        proof {
            lemma_single_bit_shl(t2 as u64);
        }
        if b.get_all_pieces() & t1m == 0 && b.get_all_pieces() & t2m == 0 {
            r.push(mk_pawn_move(b, white, 1u64 << i, t2m, true));
        }
    }
    r
}

fn pawn_ep_exec(b: &ChessBoard, white: bool, i: u64, a: i64) -> (r: Vec<ChessBoard>)
    requires
        i < 64,
        -1 <= a,
        a <= 64,
    ensures
        r@ == pawn_ep(*b, white, i, a as int),
{
    let mut r: Vec<ChessBoard> = Vec::new();
    let on_rank: bool = if white {
        32 <= i && i < 40
    } else {
        24 <= i && i < 32
    };
    if on_rank && 0 <= a && a / 8 == (i / 8) as i64 {
        let am: u64 = 1u64 << (a as u64);
        let dest: i64 = if white {
            a + 8
        } else {
            a - 8
        };
        let dm: u64 = 1u64 << (dest as u64);
        let opp_pawns: u64 = if white {
            b.black_pawns
        } else {
            b.white_pawns
        };
        if opp_pawns & am != 0 && b.prev_double_push_pawns & am != 0 && b.get_all_pieces() & dm
            == 0 {
            r.push(mk_ep_move(b, white, 1u64 << i, am));
        }
    }
    r
}

fn pawn_sq_exec(b: &ChessBoard, white: bool, i: u64) -> (r: Vec<ChessBoard>)
    requires
        i < 64,
    ensures
        r@ == pawn_sq_moves(*b, white, i),
{
    let mut r: Vec<ChessBoard> = Vec::new();
    if 8 <= i && i < 56 {
        if white {
            let mut m = pawn_cap_exec(b, true, i, i as i64 + 9, 1, 7);
            r.append(&mut m);
            let mut m = pawn_cap_exec(b, true, i, i as i64 + 7, 0, 6);
            r.append(&mut m);
            let mut m = pawn_fwd_exec(b, true, i);
            r.append(&mut m);
            let mut m = pawn_dbl_exec(b, true, i);
            r.append(&mut m);
            let mut m = pawn_ep_exec(b, true, i, i as i64 - 1);
            r.append(&mut m);
            let mut m = pawn_ep_exec(b, true, i, i as i64 + 1);
            r.append(&mut m);
        } else {
            let mut m = pawn_cap_exec(b, false, i, i as i64 - 7, 1, 7);
            r.append(&mut m);
            let mut m = pawn_cap_exec(b, false, i, i as i64 - 9, 0, 6);
            r.append(&mut m);
            let mut m = pawn_fwd_exec(b, false, i);
            r.append(&mut m);
            let mut m = pawn_dbl_exec(b, false, i);
            r.append(&mut m);
            let mut m = pawn_ep_exec(b, false, i, i as i64 - 1);
            r.append(&mut m);
            let mut m = pawn_ep_exec(b, false, i, i as i64 + 1);
            r.append(&mut m);
        }
    }
    r
}

} // verus!

verus! {

/// The square a knight or king on `i` attacks at offset `off`, if it stays
/// on the board, lands within the file bounds and is not blocked by an own
/// piece; `0` otherwise.
pub open spec fn step_attack(b: ChessBoard, white: bool, i: u64, off: int, lo: int, hi: int) -> u64 {
    let t: int = i + off;
    if 0 <= t && t < 64 && lo <= t % 8 && t % 8 <= hi && !occ_at(own_all(b, white), t) {
        sq_bit(t)
    } else {
        0
    }
}

pub open spec fn knight_attacks_sq(b: ChessBoard, white: bool, i: u64) -> u64 {
    step_attack(b, white, i, 17, 1, 7) | step_attack(b, white, i, 15, 0, 6) | step_attack(
        b,
        white,
        i,
        -15,
        1,
        7,
    ) | step_attack(b, white, i, -17, 0, 6) | step_attack(b, white, i, 10, 2, 7) | step_attack(
        b,
        white,
        i,
        -6,
        2,
        7,
    ) | step_attack(b, white, i, 6, 0, 5) | step_attack(b, white, i, -10, 0, 5)
}

pub open spec fn king_attacks_sq(b: ChessBoard, white: bool, i: u64) -> u64 {
    step_attack(b, white, i, 8, 0, 7) | step_attack(b, white, i, -8, 0, 7) | step_attack(
        b,
        white,
        i,
        -1,
        0,
        6,
    ) | step_attack(b, white, i, 1, 1, 7) | step_attack(b, white, i, 9, 1, 7) | step_attack(
        b,
        white,
        i,
        7,
        0,
        6,
    ) | step_attack(b, white, i, -7, 1, 7) | step_attack(b, white, i, -9, 0, 6)
}

/// A pawn's diagonal attack square, counted whether or not it is occupied.
pub open spec fn pawn_att(t: int, lo: int, hi: int) -> u64 {
    if 0 <= t && t < 64 && lo <= t % 8 && t % 8 <= hi {
        sq_bit(t)
    } else {
        0
    }
}

pub open spec fn pawn_attacks_sq(white: bool, i: u64) -> u64 {
    if 8 <= i && i < 56 {
        if white {
            pawn_att(i + 9, 1, 7) | pawn_att(i + 7, 0, 6)
        } else {
            pawn_att(i - 7, 1, 7) | pawn_att(i - 9, 0, 6)
        }
    } else {
        0
    }
}

/// The squares a sliding piece attacks along one ray: every empty square up
/// to and including the first square held by an opposing piece; an own piece
/// blocks the ray without being counted.
pub open spec fn ray_attack(
    b: ChessBoard,
    white: bool,
    cur: u64,
    df: int,
    dr: int,
    fuel: nat,
) -> u64
    decreases fuel,
{
    if fuel == 0 {
        0
    } else {
        let nf: int = cur % 8 + df;
        let nr: int = cur / 8 + dr;
        if 0 <= nf && nf < 8 && 0 <= nr && nr < 8 {
            let t: int = nr * 8 + nf;
            if occ_at(own_all(b, white), t) {
                0
            } else if occ_at(opp_all(b, white), t) {
                sq_bit(t)
            } else {
                sq_bit(t) | ray_attack(b, white, t as u64, df, dr, (fuel - 1) as nat)
            }
        } else {
            0
        }
    }
}

pub open spec fn slider_attacks_sq(b: ChessBoard, white: bool, p: Piece, i: u64) -> u64 {
    match p {
        Piece::Rook => ray_attack(b, white, i, 0, 1, 7) | ray_attack(b, white, i, 0, -1, 7)
            | ray_attack(b, white, i, -1, 0, 7) | ray_attack(b, white, i, 1, 0, 7),
        Piece::Bishop => ray_attack(b, white, i, 1, 1, 7) | ray_attack(b, white, i, -1, 1, 7)
            | ray_attack(b, white, i, 1, -1, 7) | ray_attack(b, white, i, -1, -1, 7),
        _ => ray_attack(b, white, i, 0, 1, 7) | ray_attack(b, white, i, 0, -1, 7) | ray_attack(
            b,
            white,
            i,
            -1,
            0,
            7,
        ) | ray_attack(b, white, i, 1, 0, 7) | ray_attack(b, white, i, 1, 1, 7) | ray_attack(
            b,
            white,
            i,
            -1,
            1,
            7,
        ) | ray_attack(b, white, i, 1, -1, 7) | ray_attack(b, white, i, -1, -1, 7),
    }
}

/// What the piece(s) of the moving side standing on square `i` attack.
pub open spec fn attack_contrib(b: ChessBoard, white: bool, i: u64) -> u64 {
    (if occ_at(own_bb(b, white, Piece::Rook), i as int) {
        slider_attacks_sq(b, white, Piece::Rook, i)
    } else {
        0
    }) | (if occ_at(own_bb(b, white, Piece::Knight), i as int) {
        knight_attacks_sq(b, white, i)
    } else {
        0
    }) | (if occ_at(own_bb(b, white, Piece::Bishop), i as int) {
        slider_attacks_sq(b, white, Piece::Bishop, i)
    } else {
        0
    }) | (if occ_at(own_bb(b, white, Piece::Queen), i as int) {
        slider_attacks_sq(b, white, Piece::Queen, i)
    } else {
        0
    }) | (if occ_at(own_bb(b, white, Piece::King), i as int) {
        king_attacks_sq(b, white, i)
    } else {
        0
    }) | (if occ_at(own_bb(b, white, Piece::Pawn), i as int) {
        pawn_attacks_sq(white, i)
    } else {
        0
    })
}

pub open spec fn attack_upto(b: ChessBoard, white: bool, n: u64) -> u64
    decreases n,
{
    if n == 0 {
        0
    } else {
        attack_upto(b, white, (n - 1) as u64) | attack_contrib(b, white, (n - 1) as u64)
    }
}

/// Union of every square the given side's pieces could move to or capture
/// on, pawn diagonal attacks included whether or not occupied. Castling is
/// not counted: a castling king neither attacks nor captures.
pub open spec fn attack_mask(b: ChessBoard, white: bool) -> u64 {
    attack_upto(b, white, 64)
}

fn step_attack_exec(b: &ChessBoard, white: bool, i: u64, off: i64, lo: i64, hi: i64) -> (r: u64)
    requires
        i < 64,
        -17 <= off <= 17,
    ensures
        r == step_attack(*b, white, i, off as int, lo as int, hi as int),
{
    let t: i64 = i as i64 + off;
    if 0 <= t && t < 64 && lo <= t % 8 && t % 8 <= hi {
        let tm: u64 = 1u64 << (t as u64);
        if own_all_exec(b, white) & tm == 0 {
            tm
        } else {
            0
        }
    } else {
        0
    }
}

fn knight_attacks_exec(b: &ChessBoard, white: bool, i: u64) -> (r: u64)
    requires
        i < 64,
    ensures
        r == knight_attacks_sq(*b, white, i),
{
    step_attack_exec(b, white, i, 17, 1, 7) | step_attack_exec(b, white, i, 15, 0, 6)
        | step_attack_exec(b, white, i, -15, 1, 7) | step_attack_exec(b, white, i, -17, 0, 6)
        | step_attack_exec(b, white, i, 10, 2, 7) | step_attack_exec(b, white, i, -6, 2, 7)
        | step_attack_exec(b, white, i, 6, 0, 5) | step_attack_exec(b, white, i, -10, 0, 5)
}

fn king_attacks_exec(b: &ChessBoard, white: bool, i: u64) -> (r: u64)
    requires
        i < 64,
    ensures
        r == king_attacks_sq(*b, white, i),
{
    step_attack_exec(b, white, i, 8, 0, 7) | step_attack_exec(b, white, i, -8, 0, 7)
        | step_attack_exec(b, white, i, -1, 0, 6) | step_attack_exec(b, white, i, 1, 1, 7)
        | step_attack_exec(b, white, i, 9, 1, 7) | step_attack_exec(b, white, i, 7, 0, 6)
        | step_attack_exec(b, white, i, -7, 1, 7) | step_attack_exec(b, white, i, -9, 0, 6)
}

fn pawn_att_exec(t: i64, lo: i64, hi: i64) -> (r: u64)
    requires
        -17 <= t <= 80,
    ensures
        r == pawn_att(t as int, lo as int, hi as int),
{
    if 0 <= t && t < 64 && lo <= t % 8 && t % 8 <= hi {
        1u64 << (t as u64)
    } else {
        0
    }
}

fn pawn_attacks_exec(white: bool, i: u64) -> (r: u64)
    requires
        i < 64,
    ensures
        r == pawn_attacks_sq(white, i),
{
    if 8 <= i && i < 56 {
        if white {
            pawn_att_exec(i as i64 + 9, 1, 7) | pawn_att_exec(i as i64 + 7, 0, 6)
        } else {
            pawn_att_exec(i as i64 - 7, 1, 7) | pawn_att_exec(i as i64 - 9, 0, 6)
        }
    } else {
        0
    }
}

fn ray_attack_exec(b: &ChessBoard, white: bool, cur: u64, df: i64, dr: i64, fuel: Ghost<nat>) -> (r:
    u64)
    requires
        cur < 64,
        -1 <= df <= 1,
        -1 <= dr <= 1,
        df != 0 || dr != 0,
        fuel@ >= edge_dist(cur, df as int, dr as int),
    ensures
        r == ray_attack(*b, white, cur, df as int, dr as int, fuel@),
    decreases edge_dist(cur, df as int, dr as int),
{
    let nf: i64 = (cur % 8) as i64 + df;
    let nr: i64 = (cur / 8) as i64 + dr;
    if 0 <= nf && nf < 8 && 0 <= nr && nr < 8 {
        let t: i64 = nr * 8 + nf;
        proof {
            lemma_rank_file(nr as int, nf as int);
        }
        let tm: u64 = 1u64 << (t as u64);
        if own_all_exec(b, white) & tm != 0 {
            0
        } else if opp_all_exec(b, white) & tm != 0 {
            tm
        } else {
            tm | ray_attack_exec(b, white, t as u64, df, dr, Ghost((fuel@ - 1) as nat))
        }
    } else {
        0
    }
}

fn slider_attacks_exec(b: &ChessBoard, white: bool, p: Piece, i: u64) -> (r: u64)
    requires
        i < 64,
    ensures
        r == slider_attacks_sq(*b, white, p, i),
{
    match p {
        Piece::Rook => ray_attack_exec(b, white, i, 0, 1, Ghost(7 as nat)) | ray_attack_exec(
            b,
            white,
            i,
            0,
            -1,
            Ghost(7 as nat),
        ) | ray_attack_exec(b, white, i, -1, 0, Ghost(7 as nat)) | ray_attack_exec(
            b,
            white,
            i,
            1,
            0,
            Ghost(7 as nat),
        ),
        Piece::Bishop => ray_attack_exec(b, white, i, 1, 1, Ghost(7 as nat)) | ray_attack_exec(
            b,
            white,
            i,
            -1,
            1,
            Ghost(7 as nat),
        ) | ray_attack_exec(b, white, i, 1, -1, Ghost(7 as nat)) | ray_attack_exec(
            b,
            white,
            i,
            -1,
            -1,
            Ghost(7 as nat),
        ),
        _ => ray_attack_exec(b, white, i, 0, 1, Ghost(7 as nat)) | ray_attack_exec(
            b,
            white,
            i,
            0,
            -1,
            Ghost(7 as nat),
        ) | ray_attack_exec(b, white, i, -1, 0, Ghost(7 as nat)) | ray_attack_exec(
            b,
            white,
            i,
            1,
            0,
            Ghost(7 as nat),
        ) | ray_attack_exec(b, white, i, 1, 1, Ghost(7 as nat)) | ray_attack_exec(
            b,
            white,
            i,
            -1,
            1,
            Ghost(7 as nat),
        ) | ray_attack_exec(b, white, i, 1, -1, Ghost(7 as nat)) | ray_attack_exec(
            b,
            white,
            i,
            -1,
            -1,
            Ghost(7 as nat),
        ),
    }
}

/// Computes [`attack_mask`] by scanning every square once.
pub fn attacked_mask_exec(b: &ChessBoard, white: bool) -> (r: u64)
    ensures
        r == attack_mask(*b, white),
{
    let mut r: u64 = 0;
    let mut i: u64 = 0;
    while i < 64
        invariant
            i <= 64,
            r == attack_upto(*b, white, i),
        decreases 64 - i,
    {
        let c: u64 = (if own_bb_exec(b, white, Piece::Rook) & (1u64 << i) != 0 {
            slider_attacks_exec(b, white, Piece::Rook, i)
        } else {
            0
        }) | (if own_bb_exec(b, white, Piece::Knight) & (1u64 << i) != 0 {
            knight_attacks_exec(b, white, i)
        } else {
            0
        }) | (if own_bb_exec(b, white, Piece::Bishop) & (1u64 << i) != 0 {
            slider_attacks_exec(b, white, Piece::Bishop, i)
        } else {
            0
        }) | (if own_bb_exec(b, white, Piece::Queen) & (1u64 << i) != 0 {
            slider_attacks_exec(b, white, Piece::Queen, i)
        } else {
            0
        }) | (if own_bb_exec(b, white, Piece::King) & (1u64 << i) != 0 {
            king_attacks_exec(b, white, i)
        } else {
            0
        }) | (if own_bb_exec(b, white, Piece::Pawn) & (1u64 << i) != 0 {
            pawn_attacks_exec(white, i)
        } else {
            0
        });
        assert(c == attack_contrib(*b, white, i));
        r = r | c;
        i = i + 1;
    }
    r
}

} // verus!

verus! {

/// Whether one wing's castle may be generated: the king stands unmoved on
/// its home square, the wing's rook is unmoved and present in its corner,
/// every square between king and rook is empty, and no square the king
/// stands on or travels over is attacked by the opponent.
pub open spec fn castle_ok(b: ChessBoard, white: bool, kingside: bool) -> bool {
    if white {
        &&& !b.white_moved_king
        &&& b.white_king == SQ_E1
        &&& (if kingside {
            &&& !b.white_moved_H_rook
            &&& b.white_rooks & SQ_H1 != 0
            &&& all_pieces_spec(b) & (SQ_F1 | SQ_G1) == 0
            &&& attack_mask(b, false) & (SQ_E1 | SQ_F1 | SQ_G1) == 0
        } else {
            &&& !b.white_moved_A_rook
            &&& b.white_rooks & SQ_A1 != 0
            &&& all_pieces_spec(b) & (SQ_B1 | SQ_C1 | SQ_D1) == 0
            &&& attack_mask(b, false) & (SQ_C1 | SQ_D1 | SQ_E1) == 0
        })
    } else {
        &&& !b.black_moved_king
        &&& b.black_king == SQ_E8
        &&& (if kingside {
            &&& !b.black_moved_H_rook
            &&& b.black_rooks & SQ_H8 != 0
            &&& all_pieces_spec(b) & (SQ_F8 | SQ_G8) == 0
            &&& attack_mask(b, true) & (SQ_E8 | SQ_F8 | SQ_G8) == 0
        } else {
            &&& !b.black_moved_A_rook
            &&& b.black_rooks & SQ_A8 != 0
            &&& all_pieces_spec(b) & (SQ_B8 | SQ_C8 | SQ_D8) == 0
            &&& attack_mask(b, true) & (SQ_C8 | SQ_D8 | SQ_E8) == 0
        })
    }
}

/// The castle moves available to a side, kingside first.
pub open spec fn castle_seq(b: ChessBoard, white: bool) -> Seq<ChessBoard> {
    (if castle_ok(b, white, true) {
        seq![spec_castle(b, white, true)]
    } else {
        Seq::empty()
    }) + (if castle_ok(b, white, false) {
        seq![spec_castle(b, white, false)]
    } else {
        Seq::empty()
    })
}

/// All candidate moves of the piece of kind `p` standing on square `i`.
pub open spec fn sq_moves(b: ChessBoard, white: bool, p: Piece, i: u64) -> Seq<ChessBoard> {
    match p {
        Piece::Pawn => pawn_sq_moves(b, white, i),
        Piece::Knight => knight_sq_moves(b, white, i),
        Piece::King => king_step_sq_moves(b, white, i),
        Piece::Rook => slider_sq_moves(b, white, p, i),
        Piece::Bishop => slider_sq_moves(b, white, p, i),
        Piece::Queen => slider_sq_moves(b, white, p, i),
    }
}

/// All candidate moves of the moving side's pieces of kind `p` standing on
/// squares below `n`, scanning squares in ascending order.
pub open spec fn scan_moves(b: ChessBoard, white: bool, p: Piece, n: u64) -> Seq<ChessBoard>
    decreases n,
{
    if n == 0 {
        Seq::empty()
    } else {
        scan_moves(b, white, p, (n - 1) as u64) + (if occ_at(own_bb(b, white, p), n - 1) {
            sq_moves(b, white, p, (n - 1) as u64)
        } else {
            Seq::empty()
        })
    }
}

/// The full king move list: the eight one-square steps, then castling.
pub open spec fn king_moves_spec(b: ChessBoard, white: bool) -> Seq<ChessBoard> {
    scan_moves(b, white, Piece::King, 64) + castle_seq(b, white)
}

/// Every pseudo-legal move of a side, grouped by piece kind in the order
/// pawns, rooks, knights, bishops, queens, king.
pub open spec fn pseudo_moves(b: ChessBoard, white: bool) -> Seq<ChessBoard> {
    scan_moves(b, white, Piece::Pawn, 64) + scan_moves(b, white, Piece::Rook, 64) + scan_moves(
        b,
        white,
        Piece::Knight,
        64,
    ) + scan_moves(b, white, Piece::Bishop, 64) + scan_moves(b, white, Piece::Queen, 64)
        + king_moves_spec(b, white)
}

/// The move list returned beside the attack mask: every piece kind's scan,
/// king steps without castling (a castle neither attacks nor captures),
/// pawn moves last.
pub open spec fn attack_scan_list(b: ChessBoard, white: bool) -> Seq<ChessBoard> {
    scan_moves(b, white, Piece::Rook, 64) + scan_moves(b, white, Piece::Knight, 64) + scan_moves(
        b,
        white,
        Piece::Bishop,
        64,
    ) + scan_moves(b, white, Piece::Queen, 64) + scan_moves(b, white, Piece::King, 64) + scan_moves(
        b,
        white,
        Piece::Pawn,
        64,
    )
}

fn sq_moves_exec(b: &ChessBoard, white: bool, p: Piece, i: u64) -> (r: Vec<ChessBoard>)
    requires
        i < 64,
    ensures
        r@ == sq_moves(*b, white, p, i),
{
    match p {
        Piece::Pawn => pawn_sq_exec(b, white, i),
        Piece::Knight => knight_sq_exec(b, white, i),
        Piece::King => king_step_sq_exec(b, white, i),
        Piece::Rook => slider_sq_exec(b, white, Piece::Rook, i),
        Piece::Bishop => slider_sq_exec(b, white, Piece::Bishop, i),
        Piece::Queen => slider_sq_exec(b, white, Piece::Queen, i),
    }
}

/// Scans the board square by square for the moving side's pieces of kind
/// `p` and collects their candidate moves.
pub fn scan_piece_moves(b: &ChessBoard, white: bool, p: Piece) -> (r: Vec<ChessBoard>)
    ensures
        r@ == scan_moves(*b, white, p, 64),
{
    let bb = own_bb_exec(b, white, p);
    let mut r: Vec<ChessBoard> = Vec::new();
    let mut i: u64 = 0;
    while i < 64
        invariant
            i <= 64,
            bb == own_bb(*b, white, p),
            r@ == scan_moves(*b, white, p, i),
        decreases 64 - i,
    {
        if bb & (1u64 << i) != 0 {
            let mut m = sq_moves_exec(b, white, p, i);
            r.append(&mut m);
        }
        i = i + 1;
    }
    r
}

/// The castle moves available to a side, kingside first.
pub fn castle_moves_exec(b: &ChessBoard, white: bool) -> (r: Vec<ChessBoard>)
    ensures
        r@ == castle_seq(*b, white),
{
    let mut r: Vec<ChessBoard> = Vec::new();
    if white {
        if !b.white_moved_king && b.white_king == SQ_E1 {
            if !b.white_moved_H_rook && b.white_rooks & SQ_H1 != 0 && b.get_all_pieces() & (SQ_F1
                | SQ_G1) == 0 && attacked_mask_exec(b, false) & (SQ_E1 | SQ_F1 | SQ_G1) == 0 {
                r.push(mk_castle(b, true, true));
            }
            if !b.white_moved_A_rook && b.white_rooks & SQ_A1 != 0 && b.get_all_pieces() & (SQ_B1
                | SQ_C1 | SQ_D1) == 0 && attacked_mask_exec(b, false) & (SQ_C1 | SQ_D1 | SQ_E1)
                == 0 {
                r.push(mk_castle(b, true, false));
            }
        }
    } else {
        if !b.black_moved_king && b.black_king == SQ_E8 {
            if !b.black_moved_H_rook && b.black_rooks & SQ_H8 != 0 && b.get_all_pieces() & (SQ_F8
                | SQ_G8) == 0 && attacked_mask_exec(b, true) & (SQ_E8 | SQ_F8 | SQ_G8) == 0 {
                r.push(mk_castle(b, false, true));
            }
            if !b.black_moved_A_rook && b.black_rooks & SQ_A8 != 0 && b.get_all_pieces() & (SQ_B8
                | SQ_C8 | SQ_D8) == 0 && attacked_mask_exec(b, true) & (SQ_C8 | SQ_D8 | SQ_E8)
                == 0 {
                r.push(mk_castle(b, false, false));
            }
        }
    }
    r
}

/// The full king move list: steps, then castling.
pub fn king_moves_exec(b: &ChessBoard, white: bool) -> (r: Vec<ChessBoard>)
    ensures
        r@ == king_moves_spec(*b, white),
{
    let mut r = scan_piece_moves(b, white, Piece::King);
    let mut c = castle_moves_exec(b, white);
    r.append(&mut c);
    r
}

/// Every pseudo-legal move of a side, in generation order.
pub fn pseudo_moves_exec(b: &ChessBoard, white: bool) -> (r: Vec<ChessBoard>)
    ensures
        r@ == pseudo_moves(*b, white),
{
    let mut r = scan_piece_moves(b, white, Piece::Pawn);
    let mut m = scan_piece_moves(b, white, Piece::Rook);
    r.append(&mut m);
    let mut m = scan_piece_moves(b, white, Piece::Knight);
    r.append(&mut m);
    let mut m = scan_piece_moves(b, white, Piece::Bishop);
    r.append(&mut m);
    let mut m = scan_piece_moves(b, white, Piece::Queen);
    r.append(&mut m);
    let mut m = king_moves_exec(b, white);
    r.append(&mut m);
    r
}

} // verus!

verus! {

/// The move list returned beside an attack mask (see [`attack_scan_list`]).
pub fn attack_scan_list_exec(b: &ChessBoard, white: bool) -> (r: Vec<ChessBoard>)
    ensures
        r@ == attack_scan_list(*b, white),
{
    let mut r = scan_piece_moves(b, white, Piece::Rook);
    let mut m = scan_piece_moves(b, white, Piece::Knight);
    r.append(&mut m);
    let mut m = scan_piece_moves(b, white, Piece::Bishop);
    r.append(&mut m);
    let mut m = scan_piece_moves(b, white, Piece::Queen);
    r.append(&mut m);
    let mut m = scan_piece_moves(b, white, Piece::King);
    r.append(&mut m);
    let mut m = scan_piece_moves(b, white, Piece::Pawn);
    r.append(&mut m);
    r
}

} // verus!
