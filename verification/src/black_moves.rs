//! Black's public move-generation surface, mirroring the white one.
use vstd::prelude::*;
use crate::bits::is_single_bit;
use crate::board::{ChessBoard, all_white_spec, all_black_spec};
use crate::movegen::{Piece, spec_move, spec_pawn_move, spec_ep_move, spec_castle, attack_mask,
    attack_scan_list, scan_moves, king_moves_spec, pseudo_moves, mk_move, mk_ep_move, mk_castle,
    scan_piece_moves, king_moves_exec, pseudo_moves_exec, attacked_mask_exec,
    attack_scan_list_exec, SQ_E8, SQ_F8, SQ_G8, SQ_C8, SQ_D8};

verus! {

impl ChessBoard {
    /// All pseudo-legal black pawn moves.
    pub fn get_all_pseudo_legal_black_pawn_moves(&self) -> (r: Vec<ChessBoard>)
        ensures
            r@ == scan_moves(*self, false, Piece::Pawn, 64),
    {
        scan_piece_moves(self, false, Piece::Pawn)
    }

    /// All pseudo-legal black rook moves.
    pub fn get_all_pseudo_legal_black_rook_moves(&self) -> (r: Vec<ChessBoard>)
        ensures
            r@ == scan_moves(*self, false, Piece::Rook, 64),
    {
        scan_piece_moves(self, false, Piece::Rook)
    }

    /// All pseudo-legal black knight moves.
    pub fn get_all_pseudo_legal_black_knight_moves(&self) -> (r: Vec<ChessBoard>)
        ensures
            r@ == scan_moves(*self, false, Piece::Knight, 64),
    {
        scan_piece_moves(self, false, Piece::Knight)
    }

    /// All pseudo-legal black bishop moves.
    pub fn get_all_pseudo_legal_black_bishop_moves(&self) -> (r: Vec<ChessBoard>)
        ensures
            r@ == scan_moves(*self, false, Piece::Bishop, 64),
    {
        scan_piece_moves(self, false, Piece::Bishop)
    }

    /// All pseudo-legal black queen moves.
    pub fn get_all_pseudo_legal_black_queen_moves(&self) -> (r: Vec<ChessBoard>)
        ensures
            r@ == scan_moves(*self, false, Piece::Queen, 64),
    {
        scan_piece_moves(self, false, Piece::Queen)
    }

    /// All pseudo-legal black king moves: the eight steps, then castling.
    pub fn get_all_pseudo_legal_black_king_moves(&self) -> (r: Vec<ChessBoard>)
        ensures
            r@ == king_moves_spec(*self, false),
    {
        king_moves_exec(self, false)
    }

    /// Every pseudo-legal black move: pawns, rooks, knights, bishops,
    /// queens, king.
    pub fn get_all_pseudo_legal_black_moves(&self) -> (r: Vec<ChessBoard>)
        ensures
            r@ == pseudo_moves(*self, false),
    {
        pseudo_moves_exec(self, false)
    }
}

/// One step of a black bishop ray onto `attacked_square`: blocked outright
/// by an own piece, a final capturing move on a white piece. The second
/// component tells the caller to stop sliding.
pub fn black_bishop_move(bishop_square: u64, attacked_square: u64, cb: &ChessBoard) -> (r: (
    Option<ChessBoard>,
    bool,
))
    requires
        is_single_bit(attacked_square),
    ensures
        all_black_spec(*cb) & attacked_square != 0 ==> r.0 is None && r.1,
        all_black_spec(*cb) & attacked_square == 0 ==> r.0 == Some(
            spec_move(*cb, false, Piece::Bishop, bishop_square, attacked_square),
        ) && r.1 == (all_white_spec(*cb) & attacked_square != 0),
{
    if cb.get_all_black_pieces() & attacked_square != 0 {
        (None, true)
    } else {
        let hit: bool = cb.get_all_white_pieces() & attacked_square != 0;
        (Some(mk_move(cb, false, Piece::Bishop, bishop_square, attacked_square)), hit)
    }
}

/// One step of a black queen ray onto `attacked_square`.
pub fn black_queen_move(queen_square: u64, attacked_square: u64, cb: &ChessBoard) -> (r: (
    Option<ChessBoard>,
    bool,
))
    requires
        is_single_bit(attacked_square),
    ensures
        all_black_spec(*cb) & attacked_square != 0 ==> r.0 is None && r.1,
        all_black_spec(*cb) & attacked_square == 0 ==> r.0 == Some(
            spec_move(*cb, false, Piece::Queen, queen_square, attacked_square),
        ) && r.1 == (all_white_spec(*cb) & attacked_square != 0),
{
    if cb.get_all_black_pieces() & attacked_square != 0 {
        (None, true)
    } else {
        let hit: bool = cb.get_all_white_pieces() & attacked_square != 0;
        (Some(mk_move(cb, false, Piece::Queen, queen_square, attacked_square)), hit)
    }
}

/// The black king's move onto `attacked_square`; the caller rules out own
/// occupancy beforehand.
pub fn black_king_move(king_square: u64, attacked_square: u64, cb: &ChessBoard) -> (r: ChessBoard)
    requires
        is_single_bit(attacked_square),
    ensures
        r == spec_move(*cb, false, Piece::King, king_square, attacked_square),
{
    mk_move(cb, false, Piece::King, king_square, attacked_square)
}

/// Every square black attacks, beside the pseudo-legal moves gathered while
/// scanning (castling excluded from both).
pub fn get_all_attacked_squares_by_black(cb: &ChessBoard) -> (r: (u64, Vec<ChessBoard>))
    ensures
        r.0 == attack_mask(*cb, false),
        r.1@ == attack_scan_list(*cb, false),
{
    (attacked_mask_exec(cb, false), attack_scan_list_exec(cb, false))
}

/// Whether white attacks e8, f8 or g8 — the squares the black king stands
/// on or crosses when castling kingside.
pub fn are_black_short_castling_squares_under_attack(chessboard: &ChessBoard) -> (r: bool)
    ensures
        r == (attack_mask(*chessboard, true) & (SQ_E8 | SQ_F8 | SQ_G8) != 0),
{
    attacked_mask_exec(chessboard, true) & (SQ_E8 | SQ_F8 | SQ_G8) != 0
}

/// Whether white attacks c8, d8 or e8 — the squares the black king stands
/// on or crosses when castling queenside.
pub fn are_black_long_castling_squares_under_attack(chessboard: &ChessBoard) -> (r: bool)
    ensures
        r == (attack_mask(*chessboard, true) & (SQ_C8 | SQ_D8 | SQ_E8) != 0),
{
    attacked_mask_exec(chessboard, true) & (SQ_C8 | SQ_D8 | SQ_E8) != 0
}

/// Black's kingside castle: king to g8, rook h8 to f8, both flags set.
pub fn black_short_castle(curr_chessboard: &ChessBoard) -> (r: ChessBoard)
    ensures
        r == spec_castle(*curr_chessboard, false, true),
{
    mk_castle(curr_chessboard, false, true)
}

/// Black's queenside castle: king to c8, rook a8 to d8, both flags set.
pub fn black_long_castle(curr_chessboard: &ChessBoard) -> (r: ChessBoard)
    ensures
        r == spec_castle(*curr_chessboard, false, false),
{
    mk_castle(curr_chessboard, false, false)
}

/// The black pawn on `pawn_square` captures the white pawn on
/// `white_pawn_square` en passant, landing one rank behind it.
pub fn black_en_passant_move(pawn_square: u64, white_pawn_square: u64, curr_chessboard: &ChessBoard)
    -> (r: ChessBoard)
    ensures
        r == spec_ep_move(*curr_chessboard, false, pawn_square, white_pawn_square),
{
    mk_ep_move(curr_chessboard, false, pawn_square, white_pawn_square)
}

} // verus!
