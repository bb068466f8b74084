//! White's public move-generation surface: the per-piece pseudo-legal
//! generators as methods, and the free helper functions that build one
//! candidate position each. Every contract is stated over the specification
//! functions of the move-generation core.
use vstd::prelude::*;
use crate::bits::is_single_bit;
use crate::board::{ChessBoard, all_white_spec, all_black_spec};
use crate::movegen::{Piece, spec_move, spec_pawn_move, spec_ep_move, spec_castle, attack_mask,
    attack_scan_list, scan_moves, king_moves_spec, pseudo_moves, mk_move, mk_pawn_move, mk_ep_move,
    mk_castle, scan_piece_moves, king_moves_exec, pseudo_moves_exec, attacked_mask_exec,
    attack_scan_list_exec, SQ_E1, SQ_F1, SQ_G1, SQ_C1, SQ_D1};

verus! {

impl ChessBoard {
    /// All pseudo-legal white pawn moves, scanning squares a2 upward.
    pub fn get_all_pseudo_legal_white_pawn_moves(&self) -> (r: Vec<ChessBoard>)
        ensures
            r@ == scan_moves(*self, true, Piece::Pawn, 64),
    {
        scan_piece_moves(self, true, Piece::Pawn)
    }

    /// All pseudo-legal white rook moves.
    pub fn get_all_pseudo_legal_white_rook_moves(&self) -> (r: Vec<ChessBoard>)
        ensures
            r@ == scan_moves(*self, true, Piece::Rook, 64),
    {
        scan_piece_moves(self, true, Piece::Rook)
    }

    /// All pseudo-legal white knight moves.
    pub fn get_all_pseudo_legal_white_knight_moves(&self) -> (r: Vec<ChessBoard>)
        ensures
            r@ == scan_moves(*self, true, Piece::Knight, 64),
    {
        scan_piece_moves(self, true, Piece::Knight)
    }

    /// All pseudo-legal white bishop moves.
    pub fn get_all_pseudo_legal_white_bishop_moves(&self) -> (r: Vec<ChessBoard>)
        ensures
            r@ == scan_moves(*self, true, Piece::Bishop, 64),
    {
        scan_piece_moves(self, true, Piece::Bishop)
    }

    /// All pseudo-legal white queen moves.
    pub fn get_all_pseudo_legal_white_queen_moves(&self) -> (r: Vec<ChessBoard>)
        ensures
            r@ == scan_moves(*self, true, Piece::Queen, 64),
    {
        scan_piece_moves(self, true, Piece::Queen)
    }

    /// All pseudo-legal white king moves: the eight steps, then castling.
    pub fn get_all_pseudo_legal_white_king_moves(&self) -> (r: Vec<ChessBoard>)
        ensures
            r@ == king_moves_spec(*self, true),
    {
        king_moves_exec(self, true)
    }

    /// Every pseudo-legal white move: pawns, rooks, knights, bishops,
    /// queens, king.
    pub fn get_all_pseudo_legal_white_moves(&self) -> (r: Vec<ChessBoard>)
        ensures
            r@ == pseudo_moves(*self, true),
    {
        pseudo_moves_exec(self, true)
    }
}

/// The capture of the black piece on `attacked_square` by the white pawn on
/// `pawn_square`, or nothing when no black piece stands there.
pub fn check_white_pawn_take(pawn_square: u64, attacked_square: u64, cb: &ChessBoard) -> (r: Option<
    ChessBoard,
>)
    requires
        is_single_bit(attacked_square),
    ensures
        all_black_spec(*cb) & attacked_square != 0 ==> r == Some(
            spec_pawn_move(*cb, true, pawn_square, attacked_square, false),
        ),
        all_black_spec(*cb) & attacked_square == 0 ==> r is None,
{
    if cb.get_all_black_pieces() & attacked_square != 0 {
        Some(mk_pawn_move(cb, true, pawn_square, attacked_square, false))
    } else {
        None
    }
}

/// A forward push of the white pawn on `pawn_square`; a push of two ranks is
/// recorded as a double push for en passant purposes.
pub fn white_pawn_forward(pawn_square: u64, forward_square: u64, cb: &ChessBoard) -> (r: ChessBoard)
    requires
        is_single_bit(forward_square),
    ensures
        r == spec_pawn_move(
            *cb,
            true,
            pawn_square,
            forward_square,
            forward_square == pawn_square << 16u64,
        ),
{
    let dbl: bool = forward_square == pawn_square << 16u64;
    mk_pawn_move(cb, true, pawn_square, forward_square, dbl)
}

/// One step of a white bishop ray onto `attacked_square`: blocked outright
/// by an own piece, a final capturing move on a black piece. The second
/// component tells the caller to stop sliding.
pub fn white_bishop_move(bishop_square: u64, attacked_square: u64, cb: &ChessBoard) -> (r: (
    Option<ChessBoard>,
    bool,
))
    requires
        is_single_bit(attacked_square),
    ensures
        all_white_spec(*cb) & attacked_square != 0 ==> r.0 is None && r.1,
        all_white_spec(*cb) & attacked_square == 0 ==> r.0 == Some(
            spec_move(*cb, true, Piece::Bishop, bishop_square, attacked_square),
        ) && r.1 == (all_black_spec(*cb) & attacked_square != 0),
{
    if cb.get_all_white_pieces() & attacked_square != 0 {
        (None, true)
    } else {
        let hit: bool = cb.get_all_black_pieces() & attacked_square != 0;
        (Some(mk_move(cb, true, Piece::Bishop, bishop_square, attacked_square)), hit)
    }
}

/// One step of a white queen ray onto `attacked_square`.
pub fn white_queen_move(queen_square: u64, attacked_square: u64, cb: &ChessBoard) -> (r: (
    Option<ChessBoard>,
    bool,
))
    requires
        is_single_bit(attacked_square),
    ensures
        all_white_spec(*cb) & attacked_square != 0 ==> r.0 is None && r.1,
        all_white_spec(*cb) & attacked_square == 0 ==> r.0 == Some(
            spec_move(*cb, true, Piece::Queen, queen_square, attacked_square),
        ) && r.1 == (all_black_spec(*cb) & attacked_square != 0),
{
    if cb.get_all_white_pieces() & attacked_square != 0 {
        (None, true)
    } else {
        let hit: bool = cb.get_all_black_pieces() & attacked_square != 0;
        (Some(mk_move(cb, true, Piece::Queen, queen_square, attacked_square)), hit)
    }
}

/// The white king's move onto `attacked_square`; the caller rules out own
/// occupancy beforehand.
pub fn white_king_move(king_square: u64, attacked_square: u64, cb: &ChessBoard) -> (r: ChessBoard)
    requires
        is_single_bit(attacked_square),
    ensures
        r == spec_move(*cb, true, Piece::King, king_square, attacked_square),
{
    mk_move(cb, true, Piece::King, king_square, attacked_square)
}

/// Every square white attacks, beside the pseudo-legal moves gathered while
/// scanning (castling excluded from both: a castle neither attacks nor
/// captures).
pub fn get_all_attacked_squares_by_white(cb: &ChessBoard) -> (r: (u64, Vec<ChessBoard>))
    ensures
        r.0 == attack_mask(*cb, true),
        r.1@ == attack_scan_list(*cb, true),
{
    (attacked_mask_exec(cb, true), attack_scan_list_exec(cb, true))
}

/// Whether black attacks e1, f1 or g1 — the squares the white king stands
/// on or crosses when castling kingside.
pub fn are_white_short_castling_squares_under_attack(chessboard: &ChessBoard) -> (r: bool)
    ensures
        r == (attack_mask(*chessboard, false) & (SQ_E1 | SQ_F1 | SQ_G1) != 0),
{
    attacked_mask_exec(chessboard, false) & (SQ_E1 | SQ_F1 | SQ_G1) != 0
}

/// Whether black attacks c1, d1 or e1 — the squares the white king stands
/// on or crosses when castling queenside.
pub fn are_white_long_castling_squares_under_attack(chessboard: &ChessBoard) -> (r: bool)
    ensures
        r == (attack_mask(*chessboard, false) & (SQ_C1 | SQ_D1 | SQ_E1) != 0),
{
    attacked_mask_exec(chessboard, false) & (SQ_C1 | SQ_D1 | SQ_E1) != 0
}

/// White's kingside castle: king to g1, rook h1 to f1, both flags set.
pub fn white_short_castle(curr_chessboard: &ChessBoard) -> (r: ChessBoard)
    ensures
        r == spec_castle(*curr_chessboard, true, true),
{
    mk_castle(curr_chessboard, true, true)
}

/// White's queenside castle: king to c1, rook a1 to d1, both flags set.
pub fn white_long_castle(curr_chessboard: &ChessBoard) -> (r: ChessBoard)
    ensures
        r == spec_castle(*curr_chessboard, true, false),
{
    mk_castle(curr_chessboard, true, false)
}

/// The white pawn on `pawn_square` captures the black pawn on
/// `black_pawn_square` en passant, landing one rank behind it.
pub fn white_en_passant_move(pawn_square: u64, black_pawn_square: u64, curr_chessboard: &ChessBoard)
    -> (r: ChessBoard)
    ensures
        r == spec_ep_move(*curr_chessboard, true, pawn_square, black_pawn_square),
{
    mk_ep_move(curr_chessboard, true, pawn_square, black_pawn_square)
}

} // verus!
