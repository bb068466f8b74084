//! The well-known perft reference values from the standard initial position.
use bitboard_chess::board::ChessBoard;

#[test]
fn perft_depth_one() {
    let b = ChessBoard::new();
    let (table, total) = b.perft(1);
    assert_eq!(total, 20);
    assert_eq!(table.len(), 20);
    for (_, n) in &table {
        assert_eq!(*n, 1);
    }
}

#[test]
fn perft_depth_two() {
    let (table, total) = ChessBoard::new().perft(2);
    assert_eq!(total, 400);
    for (_, n) in &table {
        assert_eq!(*n, 20);
    }
}

#[test]
fn perft_depth_three() {
    let (table, total) = ChessBoard::new().perft(3);
    assert_eq!(total, 8902);
    let sum: u64 = table.iter().map(|e| e.1).sum();
    assert_eq!(sum, total);
}

#[test]
fn perft_depth_four() {
    let (_, total) = ChessBoard::new().perft(4);
    assert_eq!(total, 197281);
}

#[test]
fn worker_counts_relative_to_the_running_total() {
    let b = ChessBoard::new();
    assert_eq!(b._perft(0, 0, 5, None), 6);
    assert_eq!(b._perft(2, 1, 0, None), 20);
}
