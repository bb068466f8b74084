//! Check detection and the legality filter: a pseudo-legal move is legal
//! when the mover's own king cannot be captured by any opposing reply. The
//! filter hands each surviving position's opposing reply list back to the
//! caller, so the next ply of a tree walk need not regenerate it.
use vstd::prelude::*;
use crate::board::ChessBoard;
use crate::movegen::{pseudo_moves, pseudo_moves_exec};

verus! {

/// White's king is capturable: some pseudo-legal black reply removes it.
pub open spec fn white_in_check(b: ChessBoard) -> bool {
    exists|i: int|
        0 <= i < pseudo_moves(b, false).len() && pseudo_moves(b, false)[i].white_king == 0
}

/// Black's king is capturable: some pseudo-legal white reply removes it.
pub open spec fn black_in_check(b: ChessBoard) -> bool {
    exists|i: int|
        0 <= i < pseudo_moves(b, true).len() && pseudo_moves(b, true)[i].black_king == 0
}

/// The subsequence of `s` whose positions keep the white king on the board.
pub open spec fn king_alive_white(s: Seq<ChessBoard>) -> Seq<ChessBoard>
    decreases s.len(),
{
    if s.len() == 0 {
        Seq::empty()
    } else {
        king_alive_white(s.drop_last()) + (if s.last().white_king != 0 {
            seq![s.last()]
        } else {
            Seq::empty()
        })
    }
}

/// The subsequence of `s` whose positions keep the black king on the board.
pub open spec fn king_alive_black(s: Seq<ChessBoard>) -> Seq<ChessBoard>
    decreases s.len(),
{
    if s.len() == 0 {
        Seq::empty()
    } else {
        king_alive_black(s.drop_last()) + (if s.last().black_king != 0 {
            seq![s.last()]
        } else {
            Seq::empty()
        })
    }
}

/// The subsequence of candidate white moves that do not leave white's king
/// capturable.
pub open spec fn survivors_white(s: Seq<ChessBoard>) -> Seq<ChessBoard>
    decreases s.len(),
{
    if s.len() == 0 {
        Seq::empty()
    } else {
        survivors_white(s.drop_last()) + (if !white_in_check(s.last()) {
            seq![s.last()]
        } else {
            Seq::empty()
        })
    }
}

/// The subsequence of candidate black moves that do not leave black's king
/// capturable.
pub open spec fn survivors_black(s: Seq<ChessBoard>) -> Seq<ChessBoard>
    decreases s.len(),
{
    if s.len() == 0 {
        Seq::empty()
    } else {
        survivors_black(s.drop_last()) + (if !black_in_check(s.last()) {
            seq![s.last()]
        } else {
            Seq::empty()
        })
    }
}

/// White's legal moves: the pseudo-legal moves that survive the check
/// filter, in generation order.
pub open spec fn legal_white(b: ChessBoard) -> Seq<ChessBoard> {
    survivors_white(pseudo_moves(b, true))
}

/// Black's legal moves.
pub open spec fn legal_black(b: ChessBoard) -> Seq<ChessBoard> {
    survivors_black(pseudo_moves(b, false))
}

/// The side to move's legal moves.
pub open spec fn legal_spec(b: ChessBoard) -> Seq<ChessBoard> {
    if b.white_to_move {
        legal_white(b)
    } else {
        legal_black(b)
    }
}

/// In a sequence of positions that all keep the white king, the filter
/// keeps everything.
proof fn lemma_king_alive_white_id(s: Seq<ChessBoard>)
    requires
        forall|i: int| 0 <= i < s.len() ==> s[i].white_king != 0,
    ensures
        king_alive_white(s) == s,
    decreases s.len(),
{
    if s.len() > 0 {
        lemma_king_alive_white_id(s.drop_last());
        assert(s.drop_last().push(s.last()) =~= s);
    }
}

proof fn lemma_king_alive_black_id(s: Seq<ChessBoard>)
    requires
        forall|i: int| 0 <= i < s.len() ==> s[i].black_king != 0,
    ensures
        king_alive_black(s) == s,
    decreases s.len(),
{
    if s.len() > 0 {
        lemma_king_alive_black_id(s.drop_last());
        assert(s.drop_last().push(s.last()) =~= s);
    }
}

impl ChessBoard {
    /// Whether white's king could be captured by a pseudo-legal black reply
    /// from this position, beside the replies that keep the king (when the
    /// king is safe, that is every reply).
    pub fn is_white_king_checked(&self) -> (r: (bool, Vec<ChessBoard>))
        ensures
            r.0 == white_in_check(*self),
            r.1@ == king_alive_white(pseudo_moves(*self, false)),
            !r.0 ==> r.1@ == pseudo_moves(*self, false),
    {
        let moves = pseudo_moves_exec(self, false);
        let ghost all = pseudo_moves(*self, false);
        let mut kept: Vec<ChessBoard> = Vec::new();
        let mut found: bool = false;
        let mut idx: usize = 0;
        while idx < moves.len()
            invariant
                moves@ == all,
                idx <= all.len(),
                kept@ == king_alive_white(all.take(idx as int)),
                found == exists|i: int| 0 <= i < idx && all[i].white_king == 0,
            decreases moves@.len() - idx,
        {
            let q = moves[idx];
            proof {
                assert(all.take(idx as int + 1).drop_last() =~= all.take(idx as int));
                assert(all.take(idx as int + 1).last() == all[idx as int]);
            }
            if q.white_king == 0 {
                found = true;
            } else {
                kept.push(q);
            }
            idx = idx + 1;
        }
        proof {
            assert(all.take(all.len() as int) =~= all);
            if !found {
                lemma_king_alive_white_id(all);
            }
        }
        (found, kept)
    }

    /// Whether black's king could be captured by a pseudo-legal white reply
    /// from this position, beside the replies that keep the king.
    pub fn is_black_king_checked(&self) -> (r: (bool, Vec<ChessBoard>))
        ensures
            r.0 == black_in_check(*self),
            r.1@ == king_alive_black(pseudo_moves(*self, true)),
            !r.0 ==> r.1@ == pseudo_moves(*self, true),
    {
        let moves = pseudo_moves_exec(self, true);
        let ghost all = pseudo_moves(*self, true);
        let mut kept: Vec<ChessBoard> = Vec::new();
        let mut found: bool = false;
        let mut idx: usize = 0;
        while idx < moves.len()
            invariant
                moves@ == all,
                idx <= all.len(),
                kept@ == king_alive_black(all.take(idx as int)),
                found == exists|i: int| 0 <= i < idx && all[i].black_king == 0,
            decreases moves@.len() - idx,
        {
            let q = moves[idx];
            proof {
                assert(all.take(idx as int + 1).drop_last() =~= all.take(idx as int));
                assert(all.take(idx as int + 1).last() == all[idx as int]);
            }
            if q.black_king == 0 {
                found = true;
            } else {
                kept.push(q);
            }
            idx = idx + 1;
        }
        proof {
            assert(all.take(all.len() as int) =~= all);
            if !found {
                lemma_king_alive_black_id(all);
            }
        }
        (found, kept)
    }

    /// Filters white's pseudo-legal moves down to the legal ones. A caller
    /// that already holds the pseudo-legal list passes it in; each legal
    /// position is returned beside black's pseudo-legal replies from it.
    pub fn get_all_legal_white_moves(&self, pseudo_legal_white_moves: Option<&Vec<ChessBoard>>)
        -> (r: (Vec<ChessBoard>, Vec<Vec<ChessBoard>>))
        requires
            pseudo_legal_white_moves matches Some(v) ==> v@ == pseudo_moves(*self, true),
        ensures
            r.0@ == legal_white(*self),
            r.1@.len() == r.0@.len(),
            forall|i: int|
                0 <= i < r.0@.len() ==> #[trigger] r.1@[i]@ == pseudo_moves(r.0@[i], false),
    {
        let computed: Vec<ChessBoard>;
        let moves: &Vec<ChessBoard> = match pseudo_legal_white_moves {
            Some(v) => v,
            None => {
                computed = pseudo_moves_exec(self, true);
                &computed
            },
        };
        let ghost all = pseudo_moves(*self, true);
        let mut result: Vec<ChessBoard> = Vec::new();
        let mut caches: Vec<Vec<ChessBoard>> = Vec::new();
        let mut idx: usize = 0;
        while idx < moves.len()
            invariant
                moves@ == all,
                idx <= all.len(),
                result@ == survivors_white(all.take(idx as int)),
                caches@.len() == result@.len(),
                forall|i: int|
                    0 <= i < result@.len() ==> #[trigger] caches@[i]@ == pseudo_moves(
                        result@[i],
                        false,
                    ),
            decreases moves@.len() - idx,
        {
            let mov = moves[idx];
            let (is_checked, replies) = mov.is_white_king_checked();
            proof {
                assert(all.take(idx as int + 1).drop_last() =~= all.take(idx as int));
                assert(all.take(idx as int + 1).last() == all[idx as int]);
            }
            if !is_checked {
                result.push(mov);
                caches.push(replies);
            }
            idx = idx + 1;
        }
        proof {
            assert(all.take(all.len() as int) =~= all);
        }
        (result, caches)
    }

    /// Filters black's pseudo-legal moves down to the legal ones.
    pub fn get_all_legal_black_moves(&self, pseudo_legal_black_moves: Option<&Vec<ChessBoard>>)
        -> (r: (Vec<ChessBoard>, Vec<Vec<ChessBoard>>))
        requires
            pseudo_legal_black_moves matches Some(v) ==> v@ == pseudo_moves(*self, false),
        ensures
            r.0@ == legal_black(*self),
            r.1@.len() == r.0@.len(),
            forall|i: int|
                0 <= i < r.0@.len() ==> #[trigger] r.1@[i]@ == pseudo_moves(r.0@[i], true),
    {
        let computed: Vec<ChessBoard>;
        let moves: &Vec<ChessBoard> = match pseudo_legal_black_moves {
            Some(v) => v,
            None => {
                computed = pseudo_moves_exec(self, false);
                &computed
            },
        };
        let ghost all = pseudo_moves(*self, false);
        let mut result: Vec<ChessBoard> = Vec::new();
        let mut caches: Vec<Vec<ChessBoard>> = Vec::new();
        let mut idx: usize = 0;
        while idx < moves.len()
            invariant
                moves@ == all,
                idx <= all.len(),
                result@ == survivors_black(all.take(idx as int)),
                caches@.len() == result@.len(),
                forall|i: int|
                    0 <= i < result@.len() ==> #[trigger] caches@[i]@ == pseudo_moves(
                        result@[i],
                        true,
                    ),
            decreases moves@.len() - idx,
        {
            let mov = moves[idx];
            let (is_checked, replies) = mov.is_black_king_checked();
            proof {
                assert(all.take(idx as int + 1).drop_last() =~= all.take(idx as int));
                assert(all.take(idx as int + 1).last() == all[idx as int]);
            }
            if !is_checked {
                result.push(mov);
                caches.push(replies);
            }
            idx = idx + 1;
        }
        proof {
            assert(all.take(all.len() as int) =~= all);
        }
        (result, caches)
    }

    /// The side to move's legal moves, each beside the opponent's
    /// pseudo-legal replies from it.
    pub fn legal_moves(&self, pseudo_legal: Option<&Vec<ChessBoard>>) -> (r: (
        Vec<ChessBoard>,
        Vec<Vec<ChessBoard>>,
    ))
        requires
            pseudo_legal matches Some(v) ==> v@ == pseudo_moves(
                *self,
                self.white_to_move,
            ),
        ensures
            r.0@ == legal_spec(*self),
            r.1@.len() == r.0@.len(),
            forall|i: int|
                0 <= i < r.0@.len() ==> #[trigger] r.1@[i]@ == pseudo_moves(
                    r.0@[i],
                    !self.white_to_move,
                ),
    {
        if self.white_to_move {
            self.get_all_legal_white_moves(pseudo_legal)
        } else {
            self.get_all_legal_black_moves(pseudo_legal)
        }
    }
}

} // verus!
