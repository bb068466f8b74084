//! The tree walkers: perft, the exhaustive leaf counter over the legal-move
//! tree, and a fixed-depth minimax search without pruning. Both thread the
//! opponent reply lists that the legality filter computed back into the next
//! ply instead of regenerating them.
use vstd::prelude::*;
use vstd::seq_lib::to_multiset_insert;
use vstd::seq_lib::to_multiset_build;
use crate::board::ChessBoard;
use crate::movegen::pseudo_moves;
use crate::legality::legal_spec;
use crate::eval::{eval_spec, lemma_eval_spec_bounds};
use crate::laws::lemma_legal_side_flip;

verus! {

/// Leaf count of the legal-move tree exactly `d` plies deep: one at depth
/// zero, else the sum over the side to move's legal moves of each subtree's
/// count. A position without legal moves counts no leaves.
pub open spec fn perft_count(b: ChessBoard, d: nat) -> nat
    decreases d, 0nat,
{
    if d == 0 {
        1
    } else {
        perft_suffix(legal_spec(b), 0, (d - 1) as nat)
    }
}

/// Sum of the depth-`d` leaf counts of the positions `s[j..]`.
pub open spec fn perft_suffix(s: Seq<ChessBoard>, j: nat, d: nat) -> nat
    decreases d, s.len() + 1 - j,
{
    if j >= s.len() {
        0
    } else {
        perft_count(s[j as int], d) + perft_suffix(s, (j + 1) as nat, d)
    }
}

/// The minimax value of a position at the given remaining depth: the static
/// score at depth zero, otherwise the maximum (white to move) or minimum
/// (black to move) of the children's values. Without legal moves the fold's
/// neutral element remains: the worst possible score for the side to move.
pub open spec fn minimax_val(b: ChessBoard, d: nat) -> int
    decreases d, 0nat,
{
    if d == 0 {
        eval_spec(b)
    } else if b.white_to_move {
        max_suffix(legal_spec(b), 0, (d - 1) as nat)
    } else {
        min_suffix(legal_spec(b), 0, (d - 1) as nat)
    }
}

/// Maximum of the depth-`d` values of the positions `s[j..]`.
pub open spec fn max_suffix(s: Seq<ChessBoard>, j: nat, d: nat) -> int
    decreases d, s.len() + 1 - j,
{
    if j >= s.len() {
        i64::MIN as int
    } else {
        let v = minimax_val(s[j as int], d);
        let rest = max_suffix(s, (j + 1) as nat, d);
        if v >= rest {
            v
        } else {
            rest
        }
    }
}

/// Minimum of the depth-`d` values of the positions `s[j..]`.
pub open spec fn min_suffix(s: Seq<ChessBoard>, j: nat, d: nat) -> int
    decreases d, s.len() + 1 - j,
{
    if j >= s.len() {
        i64::MAX as int
    } else {
        let v = minimax_val(s[j as int], d);
        let rest = min_suffix(s, (j + 1) as nat, d);
        if v <= rest {
            v
        } else {
            rest
        }
    }
}

/// The root's legal moves from `s[j..]`, each paired with its minimax value
/// at the given remaining depth.
pub open spec fn minimax_pairs_suffix(s: Seq<ChessBoard>, j: nat, d: nat) -> Seq<(ChessBoard, i64)>
    decreases s.len() + 1 - j,
{
    if j >= s.len() {
        Seq::empty()
    } else {
        seq![(s[j as int], minimax_val(s[j as int], d) as i64)] + minimax_pairs_suffix(
            s,
            (j + 1) as nat,
            d,
        )
    }
}

proof fn lemma_minimax_val_bounds(b: ChessBoard, d: nat)
    ensures
        i64::MIN <= minimax_val(b, d) <= i64::MAX,
    decreases d, 0nat,
{
    if d == 0 {
        lemma_eval_spec_bounds(b);
    } else if b.white_to_move {
        lemma_max_suffix_bounds(legal_spec(b), 0, (d - 1) as nat);
    } else {
        lemma_min_suffix_bounds(legal_spec(b), 0, (d - 1) as nat);
    }
}

proof fn lemma_max_suffix_bounds(s: Seq<ChessBoard>, j: nat, d: nat)
    ensures
        i64::MIN <= max_suffix(s, j, d) <= i64::MAX,
    decreases d, s.len() + 1 - j,
{
    if j < s.len() {
        lemma_minimax_val_bounds(s[j as int], d);
        lemma_max_suffix_bounds(s, (j + 1) as nat, d);
    }
}

proof fn lemma_min_suffix_bounds(s: Seq<ChessBoard>, j: nat, d: nat)
    ensures
        i64::MIN <= min_suffix(s, j, d) <= i64::MAX,
    decreases d, s.len() + 1 - j,
{
    if j < s.len() {
        lemma_minimax_val_bounds(s[j as int], d);
        lemma_min_suffix_bounds(s, (j + 1) as nat, d);
    }
}

impl ChessBoard {
    /// Recursive perft worker: adds to `numberOfPositions` the number of
    /// positions exactly `depth - currDepth` plies below this one, reusing
    /// the caller's cached pseudo-legal list when one is passed.
    pub fn _perft(
        &self,
        depth: u64,
        currDepth: u64,
        numberOfPositions: u64,
        pseudo_legal: Option<&Vec<ChessBoard>>,
    ) -> (r: u64)
        requires
            currDepth <= depth,
            pseudo_legal matches Some(v) ==> v@ == pseudo_moves(*self, self.white_to_move),
            numberOfPositions + perft_count(*self, (depth - currDepth) as nat) <= u64::MAX,
        ensures
            r == numberOfPositions + perft_count(*self, (depth - currDepth) as nat),
        decreases depth - currDepth,
    {
        if depth == currDepth {
            return numberOfPositions + 1;
        }
        let (positions, next) = self.legal_moves(pseudo_legal);
        proof {
            lemma_legal_side_flip(*self);
        }
        let ghost s = legal_spec(*self);
        let ghost d: nat = (depth - currDepth - 1) as nat;
        let mut acc: u64 = numberOfPositions;
        let mut i: usize = 0;
        while i < positions.len()
            invariant
                positions@ == s,
                next@.len() == s.len(),
                forall|k: int|
                    0 <= k < s.len() ==> #[trigger] next@[k]@ == pseudo_moves(
                        s[k],
                        !self.white_to_move,
                    ),
                forall|k: int|
                    0 <= k < s.len() ==> #[trigger] s[k].white_to_move == !self.white_to_move,
                i <= s.len(),
                currDepth < depth,
                depth - currDepth - 1 == d,
                acc + perft_suffix(s, i as nat, d) == numberOfPositions + perft_suffix(s, 0, d),
                numberOfPositions + perft_suffix(s, 0, d) <= u64::MAX,
            decreases s.len() - i,
        {
            let pos = positions[i];
            assert(perft_suffix(s, i as nat, d) == perft_count(s[i as int], d) + perft_suffix(
                s,
                (i + 1) as nat,
                d,
            ));
            let cnt = pos._perft(depth, currDepth + 1, acc, Some(&next[i]));
            acc = cnt;
            i = i + 1;
        }
        acc
    }

    /// Exhaustive node count of the legal-move tree to exactly `depth`
    /// plies: each first-ply position beside its own subtree's leaf count,
    /// and the total.
    pub fn perft(&self, depth: u64) -> (r: (Vec<(ChessBoard, u64)>, u64))
        requires
            depth >= 1,
            perft_count(*self, depth as nat) <= u64::MAX,
        ensures
            r.0@.len() == legal_spec(*self).len(),
            forall|i: int|
                0 <= i < r.0@.len() ==> #[trigger] r.0@[i].0 == legal_spec(*self)[i]
                    && r.0@[i].1 == perft_count(legal_spec(*self)[i], (depth - 1) as nat),
            r.1 == perft_count(*self, depth as nat),
    {
        let (positions, next) = self.legal_moves(None);
        proof {
            lemma_legal_side_flip(*self);
        }
        let ghost s = legal_spec(*self);
        let ghost d: nat = (depth - 1) as nat;
        let mut result: Vec<(ChessBoard, u64)> = Vec::new();
        let mut total: u64 = 0;
        let mut i: usize = 0;
        while i < positions.len()
            invariant
                positions@ == s,
                next@.len() == s.len(),
                forall|k: int|
                    0 <= k < s.len() ==> #[trigger] next@[k]@ == pseudo_moves(
                        s[k],
                        !self.white_to_move,
                    ),
                forall|k: int|
                    0 <= k < s.len() ==> #[trigger] s[k].white_to_move == !self.white_to_move,
                i <= s.len(),
                depth >= 1,
                depth - 1 == d,
                result@.len() == i,
                forall|k: int|
                    0 <= k < i ==> #[trigger] result@[k].0 == s[k] && result@[k].1 == perft_count(
                        s[k],
                        d,
                    ),
                total + perft_suffix(s, i as nat, d) == perft_suffix(s, 0, d),
                perft_suffix(s, 0, d) <= u64::MAX,
            decreases s.len() - i,
        {
            let pos = positions[i];
            assert(perft_suffix(s, i as nat, d) == perft_count(s[i as int], d) + perft_suffix(
                s,
                (i + 1) as nat,
                d,
            ));
            let num_of_positions = pos._perft(depth - 1, 0, 0, Some(&next[i]));
            total = total + num_of_positions;
            result.push((pos, num_of_positions));
            i = i + 1;
        }
        (result, total)
    }

    /// Recursive minimax worker: the value of this position at the given
    /// remaining depth.
    pub fn _minimax(&self, depth: u64, pseudo_legal: Option<&Vec<ChessBoard>>) -> (r: i64)
        requires
            pseudo_legal matches Some(v) ==> v@ == pseudo_moves(*self, self.white_to_move),
        ensures
            r == minimax_val(*self, depth as nat),
        decreases depth,
    {
        if depth == 0 {
            return self.evaluate();
        }
        let (moves, next) = self.legal_moves(pseudo_legal);
        proof {
            lemma_legal_side_flip(*self);
        }
        let ghost s = legal_spec(*self);
        let ghost d: nat = (depth - 1) as nat;
        let mut i: usize = 0;
        if self.white_to_move {
            let mut value: i64 = i64::MIN;
            proof {
                lemma_max_suffix_bounds(s, 0, d);
            }
            while i < moves.len()
                invariant
                    moves@ == s,
                    next@.len() == s.len(),
                    forall|k: int|
                        0 <= k < s.len() ==> #[trigger] next@[k]@ == pseudo_moves(
                            s[k],
                            !self.white_to_move,
                        ),
                    forall|k: int|
                        0 <= k < s.len() ==> #[trigger] s[k].white_to_move == !self.white_to_move,
                    i <= s.len(),
                    self.white_to_move,
                    depth >= 1,
                    depth - 1 == d,
                    (if value as int >= max_suffix(s, i as nat, d) {
                        value as int
                    } else {
                        max_suffix(s, i as nat, d)
                    }) == max_suffix(s, 0, d),
                decreases s.len() - i,
            {
                let mov = moves[i];
                let child = mov._minimax(depth - 1, Some(&next[i]));
                if child > value {
                    value = child;
                }
                i = i + 1;
            }
            value
        } else {
            let mut value: i64 = i64::MAX;
            proof {
                lemma_min_suffix_bounds(s, 0, d);
            }
            while i < moves.len()
                invariant
                    moves@ == s,
                    next@.len() == s.len(),
                    forall|k: int|
                        0 <= k < s.len() ==> #[trigger] next@[k]@ == pseudo_moves(
                            s[k],
                            !self.white_to_move,
                        ),
                    forall|k: int|
                        0 <= k < s.len() ==> #[trigger] s[k].white_to_move == !self.white_to_move,
                    i <= s.len(),
                    !self.white_to_move,
                    depth >= 1,
                    depth - 1 == d,
                    (if value as int <= min_suffix(s, i as nat, d) {
                        value as int
                    } else {
                        min_suffix(s, i as nat, d)
                    }) == min_suffix(s, 0, d),
                decreases s.len() - i,
            {
                let mov = moves[i];
                let child = mov._minimax(depth - 1, Some(&next[i]));
                if child < value {
                    value = child;
                }
                i = i + 1;
            }
            value
        }
    }

    /// Fixed-depth minimax over every legal root move: each first-ply
    /// position beside its value, sorted by value descending (white's
    /// perspective, higher is better for white), ties keeping generation
    /// order.
    pub fn minimax(&self, depth: u64) -> (r: Vec<(ChessBoard, i64)>)
        requires
            depth >= 1,
        ensures
            r@.to_multiset() == minimax_pairs_suffix(
                legal_spec(*self),
                0,
                (depth - 1) as nat,
            ).to_multiset(),
            forall|i: int, j: int| 0 <= i <= j < r@.len() ==> #[trigger] r@[i].1 >= #[trigger] r@[j].1,
    {
        let (moves, next) = self.legal_moves(None);
        proof {
            lemma_legal_side_flip(*self);
        }
        let ghost s = legal_spec(*self);
        let ghost d: nat = (depth - 1) as nat;
        let mut pairs: Vec<(ChessBoard, i64)> = Vec::new();
        let mut i: usize = 0;
        while i < moves.len()
            invariant
                moves@ == s,
                next@.len() == s.len(),
                forall|k: int|
                    0 <= k < s.len() ==> #[trigger] next@[k]@ == pseudo_moves(
                        s[k],
                        !self.white_to_move,
                    ),
                forall|k: int|
                    0 <= k < s.len() ==> #[trigger] s[k].white_to_move == !self.white_to_move,
                i <= s.len(),
                depth >= 1,
                depth - 1 == d,
                pairs@ + minimax_pairs_suffix(s, i as nat, d) == minimax_pairs_suffix(s, 0, d),
            decreases s.len() - i,
        {
            let mov = moves[i];
            let value = mov._minimax(depth - 1, Some(&next[i]));
            assert(minimax_pairs_suffix(s, i as nat, d) == seq![
                (s[i as int], minimax_val(s[i as int], d) as i64),
            ] + minimax_pairs_suffix(s, (i + 1) as nat, d));
            pairs.push((mov, value));
            proof {
                assert(pairs@ + minimax_pairs_suffix(s, (i + 1) as nat, d) =~= minimax_pairs_suffix(
                    s,
                    0,
                    d,
                ));
            }
            i = i + 1;
        }
        proof {
            assert(pairs@ + minimax_pairs_suffix(s, s.len() as nat, d) =~= pairs@);
        }
        sort_pairs_desc(pairs)
    }
}

/// Insertion sort, descending by score, stable for equal scores.
fn sort_pairs_desc(v: Vec<(ChessBoard, i64)>) -> (r: Vec<(ChessBoard, i64)>)
    ensures
        r@.to_multiset() == v@.to_multiset(),
        forall|i: int, j: int| 0 <= i <= j < r@.len() ==> #[trigger] r@[i].1 >= #[trigger] r@[j].1,
{
    let mut r: Vec<(ChessBoard, i64)> = Vec::new();
    let mut i: usize = 0;
    proof {
        assert(r@ =~= v@.take(0));
    }
    while i < v.len()
        invariant
            i <= v@.len(),
            r@.to_multiset() == v@.take(i as int).to_multiset(),
            forall|a: int, c: int| 0 <= a <= c < r@.len() ==> #[trigger] r@[a].1 >= #[trigger] r@[c].1,
        decreases v@.len() - i,
    {
        let x = v[i];
        let mut pos: usize = 0;
        while pos < r.len() && r[pos].1 >= x.1
            invariant
                pos <= r@.len(),
                forall|k: int| 0 <= k < pos ==> #[trigger] r@[k].1 >= x.1,
                forall|a: int, c: int| 0 <= a <= c < r@.len() ==> #[trigger] r@[a].1
                    >= #[trigger] r@[c].1,
            decreases r@.len() - pos,
        {
            pos = pos + 1;
        }
        proof {
            to_multiset_insert(r@, pos as int, x);
            to_multiset_build(v@.take(i as int), v@[i as int]);
            assert(v@.take(i as int).push(v@[i as int]) =~= v@.take(i as int + 1));
        }
        r.insert(pos, x);
        i = i + 1;
    }
    proof {
        assert(v@.take(v@.len() as int) =~= v@);
    }
    r
}

} // verus!
