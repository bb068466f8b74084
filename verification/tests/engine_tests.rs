//! Behavioural tests of the move generator, the legality filter, check
//! detection and the evaluation, on concrete positions.
use bitboard_chess::board::ChessBoard;
use bitboard_chess::white_moves::{are_white_short_castling_squares_under_attack,
    are_white_long_castling_squares_under_attack, white_short_castle, white_long_castle,
    white_en_passant_move, check_white_pawn_take, white_pawn_forward, white_king_move,
    white_bishop_move, white_queen_move, get_all_attacked_squares_by_white};
use bitboard_chess::black_moves::{black_bishop_move, black_queen_move, black_king_move,
    black_short_castle, black_long_castle, black_en_passant_move,
    get_all_attacked_squares_by_black, are_black_short_castling_squares_under_attack,
    are_black_long_castling_squares_under_attack};

fn empty_board(white_to_move: bool) -> ChessBoard {
    let mut b = ChessBoard::new();
    b.white_to_move = white_to_move;
    b.prev_double_push_pawns = 0;
    b.white_pawns = 0;
    b.white_rooks = 0;
    b.white_knights = 0;
    b.white_bishops = 0;
    b.white_queens = 0;
    b.white_king = 0x10; // e1
    b.black_pawns = 0;
    b.black_rooks = 0;
    b.black_knights = 0;
    b.black_bishops = 0;
    b.black_queens = 0;
    b.black_king = 0x1000000000000000; // e8
    b.white_moved_king = true;
    b.white_moved_A_rook = true;
    b.white_moved_H_rook = true;
    b.black_moved_king = true;
    b.black_moved_A_rook = true;
    b.black_moved_H_rook = true;
    b
}

fn boards_disjoint(b: &ChessBoard) -> bool {
    let bbs = [
        b.white_pawns,
        b.white_rooks,
        b.white_knights,
        b.white_bishops,
        b.white_queens,
        b.white_king,
        b.black_pawns,
        b.black_rooks,
        b.black_knights,
        b.black_bishops,
        b.black_queens,
        b.black_king,
    ];
    for i in 0..12 {
        for j in (i + 1)..12 {
            if bbs[i] & bbs[j] != 0 {
                return false;
            }
        }
    }
    true
}

#[test]
fn initial_position_layout() {
    let b = ChessBoard::new();
    assert!(b.white_to_move);
    assert_eq!(b.prev_double_push_pawns, 0);
    assert_eq!(b.white_pawns, 0xFF00);
    assert_eq!(b.white_rooks, 0x81);
    assert_eq!(b.white_knights, 0x42);
    assert_eq!(b.white_bishops, 0x24);
    assert_eq!(b.white_queens, 0x8);
    assert_eq!(b.white_king, 0x10);
    assert_eq!(b.black_pawns, 0xFF000000000000);
    assert_eq!(b.black_rooks, 0x8100000000000000);
    assert_eq!(b.black_knights, 0x4200000000000000);
    assert_eq!(b.black_bishops, 0x2400000000000000);
    assert_eq!(b.black_queens, 0x800000000000000);
    assert_eq!(b.black_king, 0x1000000000000000);
    assert!(!b.white_moved_king && !b.white_moved_A_rook && !b.white_moved_H_rook);
    assert!(!b.black_moved_king && !b.black_moved_A_rook && !b.black_moved_H_rook);
    assert!(boards_disjoint(&b));
}

#[test]
fn piece_unions_and_removal() {
    let mut b = ChessBoard::new();
    assert_eq!(b.get_all_white_pieces(), 0xFFFF);
    assert_eq!(b.get_all_black_pieces(), 0xFFFF000000000000);
    assert_eq!(b.get_all_pieces(), 0xFFFF00000000FFFF);
    b.remove_white_piece(1u64 << 12); // the e2 pawn
    assert_eq!(b.white_pawns, 0xFF00 & !(1u64 << 12));
    b.remove_black_piece(1u64 << 59); // the d8 queen
    assert_eq!(b.black_queens, 0);
}

#[test]
fn twenty_first_moves_no_self_capture_disjoint_kings() {
    let b = ChessBoard::new();
    let moves = b.get_all_pseudo_legal_white_moves();
    assert_eq!(moves.len(), 20);
    for q in &moves {
        // no self-capture: white's piece count is untouched by white's move
        assert_eq!(q.get_all_white_pieces().count_ones(), 16);
        // bitboard exclusivity
        assert!(boards_disjoint(q));
        // king count invariant
        assert_eq!(q.white_king.count_ones(), 1);
        assert_eq!(q.black_king.count_ones(), 1);
        // side to move flipped
        assert!(!q.white_to_move);
    }
    let (legal, caches) = b.get_all_legal_white_moves(None);
    assert_eq!(legal.len(), 20);
    assert_eq!(caches.len(), 20);
}

#[test]
fn generators_are_deterministic() {
    let b = ChessBoard::new();
    assert_eq!(b.get_all_pseudo_legal_white_pawn_moves(), b.get_all_pseudo_legal_white_pawn_moves());
    assert_eq!(b.get_all_pseudo_legal_white_rook_moves(), b.get_all_pseudo_legal_white_rook_moves());
    assert_eq!(
        b.get_all_pseudo_legal_white_knight_moves(),
        b.get_all_pseudo_legal_white_knight_moves()
    );
    assert_eq!(
        b.get_all_pseudo_legal_white_bishop_moves(),
        b.get_all_pseudo_legal_white_bishop_moves()
    );
    assert_eq!(
        b.get_all_pseudo_legal_white_queen_moves(),
        b.get_all_pseudo_legal_white_queen_moves()
    );
    assert_eq!(b.get_all_pseudo_legal_white_king_moves(), b.get_all_pseudo_legal_white_king_moves());
    assert_eq!(b.get_all_pseudo_legal_white_moves(), b.get_all_pseudo_legal_white_moves());
    assert_eq!(b.get_all_pseudo_legal_black_moves(), b.get_all_pseudo_legal_black_moves());
}

#[test]
fn cached_pseudo_legal_list_changes_nothing() {
    let b = ChessBoard::new();
    let pseudo = b.get_all_pseudo_legal_white_moves();
    let from_cache = b.get_all_legal_white_moves(Some(&pseudo));
    let from_scratch = b.get_all_legal_white_moves(None);
    assert_eq!(from_cache.0, from_scratch.0);
    assert_eq!(from_cache.1, from_scratch.1);
    let via_dispatch = b.legal_moves(Some(&pseudo));
    assert_eq!(via_dispatch.0, from_scratch.0);
}

#[test]
fn en_passant_only_on_the_following_ply() {
    // White pawn on e5, black pawn on d5 that just double-pushed.
    let mut b = empty_board(true);
    b.white_pawns = 1u64 << 36; // e5
    b.black_pawns = 1u64 << 35; // d5
    b.prev_double_push_pawns = 1u64 << 35;
    let moves = b.get_all_pseudo_legal_white_pawn_moves();
    // the push to e6 and the en passant capture
    assert_eq!(moves.len(), 2);
    let ep = &moves[1];
    assert_eq!(ep.white_pawns, 1u64 << 43); // pawn lands on d6
    assert_eq!(ep.black_pawns, 0); // the d5 pawn is gone
    assert_eq!(ep.prev_double_push_pawns, 0);

    // One ply later the record is overwritten: the same capture is rejected.
    let mut later = b;
    later.prev_double_push_pawns = 0;
    let moves_later = later.get_all_pseudo_legal_white_pawn_moves();
    assert_eq!(moves_later.len(), 1);
    assert_eq!(moves_later[0].white_pawns, 1u64 << 44); // only the e6 push
    assert_eq!(moves_later[0].black_pawns, 1u64 << 35);
}

#[test]
fn black_en_passant_mirror() {
    // Black pawn on d4, white pawn on e4 that just double-pushed.
    let mut b = empty_board(false);
    b.black_pawns = 1u64 << 27; // d4
    b.white_pawns = 1u64 << 28; // e4
    b.prev_double_push_pawns = 1u64 << 28;
    let moves = b.get_all_pseudo_legal_black_pawn_moves();
    assert_eq!(moves.len(), 2);
    let ep = &moves[1];
    assert_eq!(ep.black_pawns, 1u64 << 20); // pawn lands on e3
    assert_eq!(ep.white_pawns, 0);
}

#[test]
fn double_push_is_recorded_and_single_push_is_not() {
    let b = ChessBoard::new();
    let moves = b.get_all_pseudo_legal_white_pawn_moves();
    for q in &moves {
        if q.prev_double_push_pawns != 0 {
            // a double push records exactly its destination on the fourth rank
            assert_eq!(q.prev_double_push_pawns.count_ones(), 1);
            assert_eq!(q.prev_double_push_pawns & 0xFF000000, q.prev_double_push_pawns);
            assert_eq!(q.prev_double_push_pawns & q.white_pawns, q.prev_double_push_pawns);
        }
    }
    assert_eq!(moves.iter().filter(|q| q.prev_double_push_pawns != 0).count(), 8);
}

#[test]
fn castle_denied_on_attacked_path_but_other_wing_unaffected() {
    // White may castle either way, but a black rook on f8 attacks f1.
    let mut b = empty_board(true);
    b.white_rooks = 0x81; // a1 and h1
    b.white_moved_king = false;
    b.white_moved_A_rook = false;
    b.white_moved_H_rook = false;
    b.black_king = 1u64 << 63; // h8, away from the back-rank files
    b.black_rooks = 1u64 << 61; // f8
    assert!(are_white_short_castling_squares_under_attack(&b));
    assert!(!are_white_long_castling_squares_under_attack(&b));
    let moves = b.get_all_pseudo_legal_white_king_moves();
    let kingside = moves.iter().any(|q| q.white_king == 0x40);
    let queenside = moves.iter().any(|q| q.white_king == 0x4 && q.white_rooks == 0x88);
    assert!(!kingside);
    assert!(queenside);
}

#[test]
fn both_castles_when_nothing_attacks() {
    let mut b = empty_board(true);
    b.white_rooks = 0x81;
    b.white_moved_king = false;
    b.white_moved_A_rook = false;
    b.white_moved_H_rook = false;
    b.black_king = 1u64 << 63;
    let moves = b.get_all_pseudo_legal_white_king_moves();
    assert!(moves.iter().any(|q| q.white_king == 0x40 && q.white_rooks == 0x21));
    assert!(moves.iter().any(|q| q.white_king == 0x4 && q.white_rooks == 0x88));
    // the transforms themselves
    let ks = white_short_castle(&b);
    assert_eq!(ks.white_king, 0x40);
    assert_eq!(ks.white_rooks, 0x21);
    assert!(ks.white_moved_king && ks.white_moved_H_rook && !ks.white_moved_A_rook);
    let qs = white_long_castle(&b);
    assert_eq!(qs.white_king, 0x4);
    assert_eq!(qs.white_rooks, 0x88);
    assert!(qs.white_moved_king && qs.white_moved_A_rook);
}

#[test]
fn black_castles_mirror() {
    let mut b = empty_board(false);
    b.black_rooks = 0x8100000000000000;
    b.black_moved_king = false;
    b.black_moved_A_rook = false;
    b.black_moved_H_rook = false;
    b.white_king = 1u64 << 7; // h1, off the e-file
    assert!(!are_black_short_castling_squares_under_attack(&b));
    assert!(!are_black_long_castling_squares_under_attack(&b));
    let moves = b.get_all_pseudo_legal_black_king_moves();
    assert!(moves.iter().any(|q| q.black_king == 0x4000000000000000));
    assert!(moves.iter().any(|q| q.black_king == 0x0400000000000000));
    let ks = black_short_castle(&b);
    assert_eq!(ks.black_king, 0x4000000000000000);
    assert_eq!(ks.black_rooks, 0x2100000000000000);
    let qs = black_long_castle(&b);
    assert_eq!(qs.black_king, 0x0400000000000000);
    assert_eq!(qs.black_rooks, 0x8800000000000000);
}

#[test]
fn check_detection_agrees_with_destination_scan() {
    // A black rook on e8 checks the white king on e1 along the open file.
    let mut b = empty_board(true);
    b.black_rooks = 1u64 << 60; // e8
    b.black_king = 1u64 << 63; // h8
    let (checked, kept) = b.is_white_king_checked();
    assert!(checked);
    let replies = b.get_all_pseudo_legal_black_moves();
    let by_scan = replies.iter().any(|q| q.white_king == 0);
    assert_eq!(checked, by_scan);
    assert_eq!(kept.len(), replies.len() - replies.iter().filter(|q| q.white_king == 0).count());

    // Nothing attacks the king in the initial position.
    let start = ChessBoard::new();
    let (checked0, kept0) = start.is_white_king_checked();
    assert!(!checked0);
    assert_eq!(kept0, start.get_all_pseudo_legal_black_moves());
    let (bchecked0, _) = start.is_black_king_checked();
    assert!(!bchecked0);
}

#[test]
fn legality_filters_moves_that_leave_the_king_attacked() {
    // White king e1, black rook e8: only king steps off the e-file survive,
    // or nothing may block... here the king has no blockers, so every legal
    // move leaves the file.
    let mut b = empty_board(true);
    b.black_rooks = 1u64 << 60;
    b.black_king = 1u64 << 63;
    let (legal, _) = b.get_all_legal_white_moves(None);
    for q in &legal {
        assert!(q.white_king & 0x1010101010101010 == 0); // not on the e-file
    }
    assert_eq!(legal.len(), 4); // d1, f1, d2, f2
}

#[test]
fn pawn_helpers_build_the_described_positions() {
    let b = ChessBoard::new();
    // a push of the e2 pawn one square
    let single = white_pawn_forward(1u64 << 12, 1u64 << 20, &b);
    assert_eq!(single.white_pawns, (0xFF00 & !(1u64 << 12)) | (1u64 << 20));
    assert_eq!(single.prev_double_push_pawns, 0);
    // a push of two squares records the destination
    let double = white_pawn_forward(1u64 << 12, 1u64 << 28, &b);
    assert_eq!(double.prev_double_push_pawns, 1u64 << 28);
    // no black piece on e3: no capture
    assert_eq!(check_white_pawn_take(1u64 << 12, 1u64 << 21, &b), None);
    // put a black pawn on f3 and capture it
    let mut c = b;
    c.black_pawns |= 1u64 << 21;
    let take = check_white_pawn_take(1u64 << 12, 1u64 << 21, &c).unwrap();
    assert_eq!(take.white_pawns & (1u64 << 21), 1u64 << 21);
    assert_eq!(take.black_pawns & (1u64 << 21), 0);
}

#[test]
fn slider_helpers_stop_on_own_pieces_and_capture_enemies() {
    let mut b = empty_board(true);
    b.white_bishops = 1u64 << 27; // d4
    b.white_queens = 1u64 << 0; // a1
    b.black_pawns = 1u64 << 45; // f6
    // own piece blocks: stop and no move
    let (none_move, stop) = white_bishop_move(1u64 << 27, 1u64 << 0, &b);
    assert!(none_move.is_none() && stop);
    // empty square: move, keep sliding
    let (some_move, stop2) = white_bishop_move(1u64 << 27, 1u64 << 36, &b);
    assert!(some_move.is_some() && !stop2);
    // enemy piece: capturing move, stop
    let (cap, stop3) = white_bishop_move(1u64 << 27, 1u64 << 45, &b);
    let cap = cap.unwrap();
    assert!(stop3);
    assert_eq!(cap.black_pawns, 0);
    assert_eq!(cap.white_bishops, 1u64 << 45);
    let (qcap, qstop) = white_queen_move(1u64 << 0, 1u64 << 0, &b);
    assert!(qcap.is_none() && qstop); // its own square holds a piece
    // a black slider stops on a black piece and captures a white one
    let (bq, bqstop) = black_queen_move(1u64 << 59, 1u64 << 45, &b);
    assert!(bq.is_none() && bqstop); // f6 holds black's own pawn
    let (bb, bstop) = black_bishop_move(1u64 << 45, 1u64 << 27, &b);
    let bb = bb.unwrap();
    assert!(bstop); // d4 holds a white bishop, which is captured
    assert_eq!(bb.white_bishops, 0);
    assert_eq!(bb.black_bishops & (1u64 << 27), 1u64 << 27);
}

#[test]
fn king_helpers_move_and_mark() {
    let b = empty_board(true);
    let stepped = white_king_move(0x10, 0x20, &b);
    assert_eq!(stepped.white_king, 0x20);
    assert!(stepped.white_moved_king);
    let bstep = black_king_move(0x1000000000000000, 0x2000000000000000, &b);
    assert_eq!(bstep.black_king, 0x2000000000000000);
    assert!(bstep.black_moved_king);
}

#[test]
fn en_passant_helpers_build_the_capture() {
    let mut b = empty_board(true);
    b.white_pawns = 1u64 << 36; // e5
    b.black_pawns = 1u64 << 35; // d5
    let ep = white_en_passant_move(1u64 << 36, 1u64 << 35, &b);
    assert_eq!(ep.white_pawns, 1u64 << 43);
    assert_eq!(ep.black_pawns, 0);
    let mut c = empty_board(false);
    c.black_pawns = 1u64 << 27; // d4
    c.white_pawns = 1u64 << 28; // e4
    let bep = black_en_passant_move(1u64 << 27, 1u64 << 28, &c);
    assert_eq!(bep.black_pawns, 1u64 << 20);
    assert_eq!(bep.white_pawns, 0);
}

#[test]
fn attacked_squares_cover_destinations_and_pawn_diagonals() {
    let start = ChessBoard::new();
    let (mask, list) = get_all_attacked_squares_by_white(&start);
    // rank 3 is fully attacked by pawns (and knights reach a3/c3/f3/h3)
    assert_eq!(mask & 0xFF0000, 0xFF0000);
    // nothing beyond rank 4 can be reached at the start
    assert_eq!(mask & 0xFFFFFFFF00000000, 0);
    assert!(!list.is_empty());
    let (bmask, _) = get_all_attacked_squares_by_black(&start);
    assert_eq!(bmask & 0xFF0000000000, 0xFF0000000000);
}

#[test]
fn promotion_is_to_queen_only() {
    let mut b = empty_board(true);
    b.white_pawns = 1u64 << 52; // e7
    b.black_king = 1u64 << 56; // a8, out of the pawn's way
    let moves = b.get_all_pseudo_legal_white_pawn_moves();
    assert_eq!(moves.len(), 1);
    assert_eq!(moves[0].white_pawns, 0);
    assert_eq!(moves[0].white_queens, 1u64 << 60);
}

#[test]
fn evaluation_counts_material_and_pawn_structure() {
    // the balanced initial position scores zero
    assert_eq!(ChessBoard::new().evaluate(), 0);
    // one black pawn short: a full pawn, two half-points
    let mut up_a_pawn = ChessBoard::new();
    up_a_pawn.remove_black_piece(1u64 << 51);
    assert_eq!(up_a_pawn.evaluate(), 2);
    // a lone white queen beside the kings: nine pawns' worth
    let mut queen_only = empty_board(true);
    queen_only.white_queens = 0x8;
    assert_eq!(queen_only.evaluate(), 18);
    // doubled and blocked pawns each cost half a point
    let mut doubled = empty_board(true);
    doubled.white_pawns = (1u64 << 8) | (1u64 << 16); // a2 and a3
    assert_eq!(doubled.whiteDoubledPawns(), 1);
    assert_eq!(doubled.whiteBlockedPawns(), 1);
    assert_eq!(doubled.blackDoubledPawns(), 0);
    assert_eq!(doubled.blackBlockedPawns(), 0);
    assert_eq!(doubled.evaluate(), 2 * 2 - 2);
}

#[test]
fn minimax_prefers_the_winning_capture() {
    let mut b = empty_board(true);
    b.white_king = 0x1; // a1
    b.white_queens = 0x8; // d1
    b.black_queens = 1u64 << 59; // d8
    b.black_king = 1u64 << 63; // h8
    let ranked = b.minimax(1);
    assert!(!ranked.is_empty());
    assert_eq!(ranked[0].1, 18); // queen takes queen
    assert_eq!(ranked[0].0.black_queens, 0);
    for w in ranked.windows(2) {
        assert!(w[0].1 >= w[1].1);
    }
}

#[test]
fn minimax_depth_one_from_the_start_scores_blocked_pawns() {
    let ranked = ChessBoard::new().minimax(1);
    assert_eq!(ranked.len(), 20);
    // every pawn push keeps the balance; each of the four knight moves
    // blocks one of the mover's own home pawns, half a point each
    assert_eq!(ranked.iter().filter(|e| e.1 == 0).count(), 16);
    assert_eq!(ranked.iter().filter(|e| e.1 == -1).count(), 4);
    for w in ranked.windows(2) {
        assert!(w[0].1 >= w[1].1);
    }
}

#[test]
fn black_has_twenty_replies() {
    let start = ChessBoard::new();
    let (white_legal, caches) = start.get_all_legal_white_moves(None);
    let first = white_legal[0];
    let (black_legal, _) = first.get_all_legal_black_moves(Some(&caches[0]));
    assert_eq!(black_legal.len(), 20);
    let (black_scratch, _) = first.get_all_legal_black_moves(None);
    assert_eq!(black_legal, black_scratch);
}

#[test]
fn kings_survive_two_plies_of_legal_play() {
    let start = ChessBoard::new();
    let (white_legal, _) = start.legal_moves(None);
    for q in &white_legal {
        let (black_legal, _) = q.legal_moves(None);
        for r in &black_legal {
            assert_eq!(r.white_king.count_ones(), 1);
            assert_eq!(r.black_king.count_ones(), 1);
            assert!(boards_disjoint(r));
            assert!(r.white_to_move);
        }
    }
}

#[test]
fn minimax_for_black_minimises() {
    // Black to move may capture the white queen.
    let mut b = empty_board(false);
    b.black_king = 1u64 << 63; // h8
    b.black_queens = 1u64 << 59; // d8
    b.white_queens = 0x8; // d1
    b.white_king = 0x1; // a1
    let value = b._minimax(1, None);
    assert_eq!(value, -18); // queen takes queen, white's perspective
}

#[test]
fn worker_minimax_at_depth_zero_is_the_evaluation() {
    let b = ChessBoard::new();
    assert_eq!(b._minimax(0, None), b.evaluate());
}

#[test]
fn capture_onto_the_last_rank_also_promotes() {
    // A black pawn on b2 takes the white rook on a1 and queens.
    let mut b = empty_board(false);
    b.black_pawns = 1u64 << 9; // b2
    b.white_rooks = 1u64 << 0; // a1
    b.white_king = 1u64 << 7; // h1, out of the way
    let moves = b.get_all_pseudo_legal_black_pawn_moves();
    let promo_capture = moves
        .iter()
        .find(|q| q.white_rooks == 0)
        .expect("the capture onto a1 must be generated");
    assert_eq!(promo_capture.black_pawns, 0);
    assert_eq!(promo_capture.black_queens, 1u64 << 0);
    // the straight push to b1 promotes as well
    let push_promo = moves.iter().find(|q| q.white_rooks != 0).unwrap();
    assert_eq!(push_promo.black_queens, 1u64 << 1);
}

#[test]
fn en_passant_never_wraps_around_the_board_edge() {
    // A white pawn on a5 and a black pawn on h5 are not adjacent, whatever
    // the double-push record claims.
    let mut b = empty_board(true);
    b.white_pawns = 1u64 << 32; // a5
    b.black_pawns = 1u64 << 39; // h5
    b.prev_double_push_pawns = 1u64 << 39;
    let moves = b.get_all_pseudo_legal_white_pawn_moves();
    assert_eq!(moves.len(), 1); // only the push to a6
    assert_eq!(moves[0].white_pawns, 1u64 << 40);
    assert_eq!(moves[0].black_pawns, 1u64 << 39);
}
