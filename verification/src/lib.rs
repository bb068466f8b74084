//! A bitboard-based chess position representation with pseudo-legal and legal
//! move generation, check detection, a perft node counter and a fixed-depth
//! minimax search over a material/pawn-structure evaluation.
#![allow(non_snake_case)]

pub mod bits;
pub mod board;
pub mod movegen;
pub mod white_moves;
pub mod black_moves;
pub mod legality;
pub mod eval;
pub mod laws;
pub mod search;
