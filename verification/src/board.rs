//! The board representation: one immutable position value holding the twelve
//! piece bitboards, the side to move, the castling bookkeeping flags and the
//! double-push record used to validate en passant.
//!
//! Square numbering: bit 0 is a1, bit 7 is h1, bit 8 is a2, bit 63 is h8.
use vstd::prelude::*;
use crate::bits::is_single_bit;

verus! {

/// File, rank and square masks of the 8x8 board.
pub struct Constants;

impl Constants {
    pub const A_FILE: u64 = 0x0101010101010101;

    pub const B_FILE: u64 = 0x0202020202020202;

    pub const G_FILE: u64 = 0x4040404040404040;

    pub const H_FILE: u64 = 0x8080808080808080;

    pub const FIRST_RANK: u64 = 0x00000000000000FF;

    pub const SECOND_RANK: u64 = 0xFF00;

    pub const FOURTH_RANK: u64 = 0xFF000000;

    pub const FIFTH_RANK: u64 = 0xFF00000000;

    pub const SEVENTH_RANK: u64 = 0xFF000000000000;

    pub const EIGHT_RANK: u64 = 0xFF00000000000000;

    pub const A1_H8_DIAGONAL: u64 = 0x8040201008040201;

    pub const H1_A8_ANTIDIAGONAL: u64 = 0x0102040810204080;

    pub const LIGHT_SQUARES: u64 = 0x55AA55AA55AA55AA;

    pub const DARK_SQUARES: u64 = 0xAA55AA55AA55AA55;
}

/// One board position.
///
/// `prev_double_push_pawns` records the destination squares of pawns of the
/// side that moved last that advanced two squares on that ply, and nothing
/// else; it is overwritten on every move and validates en passant on the
/// immediately following ply only.
#[derive(Clone, Copy, Debug, PartialEq, Eq, Hash, Structural)]
pub struct ChessBoard {
    pub white_to_move: bool,
    pub prev_double_push_pawns: u64,
    pub white_moved_king: bool,
    pub white_moved_A_rook: bool,
    pub white_moved_H_rook: bool,
    pub white_pawns: u64,
    pub white_rooks: u64,
    pub white_knights: u64,
    pub white_bishops: u64,
    pub white_queens: u64,
    pub white_king: u64,
    pub black_moved_king: bool,
    pub black_moved_A_rook: bool,
    pub black_moved_H_rook: bool,
    pub black_pawns: u64,
    pub black_rooks: u64,
    pub black_knights: u64,
    pub black_bishops: u64,
    pub black_queens: u64,
    pub black_king: u64,
}

/// Union of the white piece bitboards.
pub open spec fn all_white_spec(b: ChessBoard) -> u64 {
    b.white_pawns | b.white_rooks | b.white_knights | b.white_bishops | b.white_queens
        | b.white_king
}

/// Union of the black piece bitboards.
pub open spec fn all_black_spec(b: ChessBoard) -> u64 {
    b.black_pawns | b.black_rooks | b.black_knights | b.black_bishops | b.black_queens
        | b.black_king
}

/// Union of all occupied squares.
pub open spec fn all_pieces_spec(b: ChessBoard) -> u64 {
    all_white_spec(b) | all_black_spec(b)
}

/// The six white bitboards are pairwise disjoint.
pub open spec fn white_bb_disjoint(b: ChessBoard) -> bool {
    &&& b.white_pawns & b.white_rooks == 0
    &&& b.white_pawns & b.white_knights == 0
    &&& b.white_pawns & b.white_bishops == 0
    &&& b.white_pawns & b.white_queens == 0
    &&& b.white_pawns & b.white_king == 0
    &&& b.white_rooks & b.white_knights == 0
    &&& b.white_rooks & b.white_bishops == 0
    &&& b.white_rooks & b.white_queens == 0
    &&& b.white_rooks & b.white_king == 0
    &&& b.white_knights & b.white_bishops == 0
    &&& b.white_knights & b.white_queens == 0
    &&& b.white_knights & b.white_king == 0
    &&& b.white_bishops & b.white_queens == 0
    &&& b.white_bishops & b.white_king == 0
    &&& b.white_queens & b.white_king == 0
}

/// The six black bitboards are pairwise disjoint.
pub open spec fn black_bb_disjoint(b: ChessBoard) -> bool {
    &&& b.black_pawns & b.black_rooks == 0
    &&& b.black_pawns & b.black_knights == 0
    &&& b.black_pawns & b.black_bishops == 0
    &&& b.black_pawns & b.black_queens == 0
    &&& b.black_pawns & b.black_king == 0
    &&& b.black_rooks & b.black_knights == 0
    &&& b.black_rooks & b.black_bishops == 0
    &&& b.black_rooks & b.black_queens == 0
    &&& b.black_rooks & b.black_king == 0
    &&& b.black_knights & b.black_bishops == 0
    &&& b.black_knights & b.black_queens == 0
    &&& b.black_knights & b.black_king == 0
    &&& b.black_bishops & b.black_queens == 0
    &&& b.black_bishops & b.black_king == 0
    &&& b.black_queens & b.black_king == 0
}

/// Well-formed position: the twelve piece bitboards are pairwise disjoint,
/// so every square holds at most one piece.
pub open spec fn wf_board(b: ChessBoard) -> bool {
    &&& white_bb_disjoint(b)
    &&& black_bb_disjoint(b)
    &&& all_white_spec(b) & all_black_spec(b) == 0
}

/// The standard initial arrangement, white to move.
pub open spec fn init_board() -> ChessBoard {
    ChessBoard {
        white_to_move: true,
        prev_double_push_pawns: 0,
        white_moved_king: false,
        white_moved_A_rook: false,
        white_moved_H_rook: false,
        white_pawns: 0xFF00,
        white_rooks: 0x81,
        white_knights: 0x42,
        white_bishops: 0x24,
        white_queens: 0x8,
        white_king: 0x10,
        black_moved_king: false,
        black_moved_A_rook: false,
        black_moved_H_rook: false,
        black_pawns: 0xFF000000000000,
        black_rooks: 0x8100000000000000,
        black_knights: 0x4200000000000000,
        black_bishops: 0x2400000000000000,
        black_queens: 0x800000000000000,
        black_king: 0x1000000000000000,
    }
}

/// Result of taking the single white piece standing on `square` off the
/// board: the first white bitboard with that bit set loses it.
pub open spec fn spec_remove_white(b: ChessBoard, square: u64) -> ChessBoard {
    if b.white_pawns & square != 0 {
        ChessBoard { white_pawns: b.white_pawns & !square, ..b }
    } else if b.white_rooks & square != 0 {
        ChessBoard { white_rooks: b.white_rooks & !square, ..b }
    } else if b.white_knights & square != 0 {
        ChessBoard { white_knights: b.white_knights & !square, ..b }
    } else if b.white_bishops & square != 0 {
        ChessBoard { white_bishops: b.white_bishops & !square, ..b }
    } else if b.white_queens & square != 0 {
        ChessBoard { white_queens: b.white_queens & !square, ..b }
    } else if b.white_king & square != 0 {
        ChessBoard { white_king: b.white_king & !square, ..b }
    } else {
        b
    }
}

/// Result of taking the single black piece standing on `square` off the
/// board.
pub open spec fn spec_remove_black(b: ChessBoard, square: u64) -> ChessBoard {
    if b.black_pawns & square != 0 {
        ChessBoard { black_pawns: b.black_pawns & !square, ..b }
    } else if b.black_rooks & square != 0 {
        ChessBoard { black_rooks: b.black_rooks & !square, ..b }
    } else if b.black_knights & square != 0 {
        ChessBoard { black_knights: b.black_knights & !square, ..b }
    } else if b.black_bishops & square != 0 {
        ChessBoard { black_bishops: b.black_bishops & !square, ..b }
    } else if b.black_queens & square != 0 {
        ChessBoard { black_queens: b.black_queens & !square, ..b }
    } else if b.black_king & square != 0 {
        ChessBoard { black_king: b.black_king & !square, ..b }
    } else {
        b
    }
}

impl ChessBoard {
    /// The standard initial position.
    pub fn new() -> (r: Self)
        ensures
            r == init_board(),
    {
        Self {
            white_to_move: true,
            prev_double_push_pawns: 0,
            white_moved_king: false,
            white_moved_A_rook: false,
            white_moved_H_rook: false,
            white_pawns: 0xFF00,
            white_rooks: 0x81,
            white_knights: 0x42,
            white_bishops: 0x24,
            white_queens: 0x8,
            white_king: 0x10,
            black_moved_king: false,
            black_moved_A_rook: false,
            black_moved_H_rook: false,
            black_pawns: 0xFF000000000000,
            black_rooks: 0x8100000000000000,
            black_knights: 0x4200000000000000,
            black_bishops: 0x2400000000000000,
            black_queens: 0x800000000000000,
            black_king: 0x1000000000000000,
        }
    }

    /// Every square occupied by a white piece.
    pub fn get_all_white_pieces(&self) -> (r: u64)
        ensures
            r == all_white_spec(*self),
    {
        self.white_pawns | self.white_rooks | self.white_knights | self.white_bishops
            | self.white_queens | self.white_king
    }

    /// Every square occupied by a black piece.
    pub fn get_all_black_pieces(&self) -> (r: u64)
        ensures
            r == all_black_spec(*self),
    {
        self.black_pawns | self.black_rooks | self.black_knights | self.black_bishops
            | self.black_queens | self.black_king
    }

    /// Every occupied square.
    pub fn get_all_pieces(&self) -> (r: u64)
        ensures
            r == all_pieces_spec(*self),
    {
        self.get_all_white_pieces() | self.get_all_black_pieces()
    }

    /// Removes the white piece standing on `square`. Calling this for a
    /// square that holds no white piece would corrupt the position, so the
    /// contract demands occupancy.
    pub fn remove_white_piece(&mut self, square: u64)
        requires
            is_single_bit(square),
            all_white_spec(*old(self)) & square != 0,
        ensures
            *final(self) == spec_remove_white(*old(self), square),
    {
        if self.white_pawns & square != 0 {
            self.white_pawns = self.white_pawns & !square;
        } else if self.white_rooks & square != 0 {
            self.white_rooks = self.white_rooks & !square;
        } else if self.white_knights & square != 0 {
            self.white_knights = self.white_knights & !square;
        } else if self.white_bishops & square != 0 {
            self.white_bishops = self.white_bishops & !square;
        } else if self.white_queens & square != 0 {
            self.white_queens = self.white_queens & !square;
        } else if self.white_king & square != 0 {
            self.white_king = self.white_king & !square;
        }
    }

    /// Removes the black piece standing on `square`.
    pub fn remove_black_piece(&mut self, square: u64)
        requires
            is_single_bit(square),
            all_black_spec(*old(self)) & square != 0,
        ensures
            *final(self) == spec_remove_black(*old(self), square),
    {
        if self.black_pawns & square != 0 {
            self.black_pawns = self.black_pawns & !square;
        } else if self.black_rooks & square != 0 {
            self.black_rooks = self.black_rooks & !square;
        } else if self.black_knights & square != 0 {
            self.black_knights = self.black_knights & !square;
        } else if self.black_bishops & square != 0 {
            self.black_bishops = self.black_bishops & !square;
        } else if self.black_queens & square != 0 {
            self.black_queens = self.black_queens & !square;
        } else if self.black_king & square != 0 {
            self.black_king = self.black_king & !square;
        }
    }
}

/// White-or-black selection of the side-specific state, used by the
/// colour-generic move generation core. `white == true` selects white.
pub open spec fn own_pawns(b: ChessBoard, white: bool) -> u64 {
    if white {
        b.white_pawns
    } else {
        b.black_pawns
    }
}

pub open spec fn own_king(b: ChessBoard, white: bool) -> u64 {
    if white {
        b.white_king
    } else {
        b.black_king
    }
}

pub open spec fn opp_king(b: ChessBoard, white: bool) -> u64 {
    if white {
        b.black_king
    } else {
        b.white_king
    }
}

pub open spec fn own_all(b: ChessBoard, white: bool) -> u64 {
    if white {
        all_white_spec(b)
    } else {
        all_black_spec(b)
    }
}

pub open spec fn opp_all(b: ChessBoard, white: bool) -> u64 {
    if white {
        all_black_spec(b)
    } else {
        all_white_spec(b)
    }
}

} // verus!
