//! The move list: an ordered sequence of (white, black) move pairs in
//! which only the last pair may be incomplete. Pushing fills the open
//! slot or opens a new pair; popping removes the most recent half-move
//! and drops a pair that becomes empty. The list is modelled as the
//! flat sequence of half-moves it holds.

use vstd::prelude::*;
use vstd::pervasive::VecAdditionalExecFns;
use crate::chess_common::ChessTurn;
use crate::chess_move::ChessMove;

verus! {

broadcast use vstd::seq::group_seq_axioms;

/// The turn state of one move pair.
#[derive(Clone, Copy, Debug, PartialEq, Eq, Structural)]
pub enum PgnMoveState {
    WhiteToMove,
    BlackToMove,
    MoveComplete,
}

/// One numbered move pair: the white half-move and, once played, the
/// black answer.
#[derive(Clone, Copy, Debug, PartialEq, Eq, Structural)]
pub struct PgnMove {
    pub white_move: Option<ChessMove>,
    pub black_move: Option<ChessMove>,
}

impl PgnMove {
    /// The half-moves this pair holds, white first.
    pub open spec fn spec_plies(self) -> Seq<ChessMove> {
        match (self.white_move, self.black_move) {
            (Some(w), Some(b)) => seq![w, b],
            (Some(w), None) => seq![w],
            (None, Some(b)) => seq![b],
            (None, None) => seq![],
        }
    }

    pub open spec fn spec_state(self) -> PgnMoveState {
        if self.white_move is None {
            PgnMoveState::WhiteToMove
        } else if self.black_move is None {
            PgnMoveState::BlackToMove
        } else {
            PgnMoveState::MoveComplete
        }
    }

    pub fn new() -> (p: PgnMove)
        ensures
            p == (PgnMove { white_move: None, black_move: None }),
    {
        PgnMove { white_move: None, black_move: None }
    }

    pub fn get_state(&self) -> (s: PgnMoveState)
        ensures
            s == self.spec_state(),
    {
        if self.white_move.is_none() {
            PgnMoveState::WhiteToMove
        } else if self.black_move.is_none() {
            PgnMoveState::BlackToMove
        } else {
            PgnMoveState::MoveComplete
        }
    }

    /// Fills the first open slot, white before black; a complete pair
    /// takes nothing and reports failure.
    pub fn add_move(&mut self, new_move: ChessMove) -> (accepted: bool)
        ensures
            old(self).white_move is None ==> accepted && *final(self) == (PgnMove {
                white_move: Some(new_move),
                black_move: old(self).black_move,
            }),
            old(self).white_move is Some && old(self).black_move is None ==> accepted && *final(self) == (PgnMove { white_move: old(self).white_move, black_move: Some(new_move) }),
            old(self).white_move is Some && old(self).black_move is Some ==> !accepted && *final(self) == *old(self),
    {
        if self.white_move.is_none() {
            self.white_move = Some(new_move);
        } else if self.black_move.is_none() {
            self.black_move = Some(new_move);
        } else {
            return false;
        }
        true
    }

    /// Removes and returns the most recent half-move of this pair:
    /// the black one if present, else the white one.
    pub fn remove_move(&mut self) -> (removed: Option<ChessMove>)
        ensures
            old(self).black_move is Some ==> removed == old(self).black_move && *final(self) == (
            PgnMove { white_move: old(self).white_move, black_move: None }),
            old(self).black_move is None && old(self).white_move is Some ==> removed == old(
                self,
            ).white_move && *final(self) == (PgnMove { white_move: None, black_move: None }),
            old(self).black_move is None && old(self).white_move is None ==> removed is None
                && *final(self) == *old(self),
    {
        if self.black_move.is_some() {
            let b = self.black_move;
            self.black_move = None;
            b
        } else if self.white_move.is_some() {
            let w = self.white_move;
            self.white_move = None;
            w
        } else {
            None
        }
    }
}

/// The half-moves held by a sequence of pairs, in playing order.
pub open spec fn plies_of(pairs: Seq<PgnMove>) -> Seq<ChessMove>
    decreases pairs.len(),
{
    if pairs.len() == 0 {
        Seq::empty()
    } else {
        plies_of(pairs.drop_last()) + pairs.last().spec_plies()
    }
}

/// The ordered list of move pairs of a game.
#[derive(Debug)]
pub struct MoveList {
    pub moves: Vec<PgnMove>,
}

impl MoveList {
    /// Every pair holds a white half before a black one, and only the
    /// last pair may be incomplete.
    pub open spec fn wf(self) -> bool {
        wf_pairs(self.moves@)
    }

    /// The half-moves of the game, in playing order.
    pub open spec fn spec_plies(self) -> Seq<ChessMove> {
        plies_of(self.moves@)
    }

    /// Whose turn it is: white when the list is empty or the last pair
    /// is complete, black when the last pair waits for its answer.
    pub open spec fn spec_turn(self) -> ChessTurn {
        turn_of(self.moves@)
    }

    pub fn new() -> (l: MoveList)
        ensures
            l.wf(),
            l.spec_plies() == Seq::<ChessMove>::empty(),
            l.moves@.len() == 0,
    {
        MoveList { moves: Vec::new() }
    }

    /// Appends one half-move: it becomes the black half of the open
    /// pair, or the white half of a new pair.
    pub fn push_move(&mut self, new_move: ChessMove)
        requires
            old(self).wf(),
        ensures
            final(self).wf(),
            final(self).spec_plies() == old(self).spec_plies().push(new_move),
    {
        let ghost pairs0 = self.moves@;
        let n = self.moves.len();
        if n == 0 {
            self.moves.push(PgnMove { white_move: Some(new_move), black_move: None });
            assert(self.moves@.drop_last() =~= pairs0);
            assert(self.spec_plies() =~= plies_of(pairs0).push(new_move));
        } else {
            let last = self.moves[n - 1];
            if last.black_move.is_some() {
                self.moves.push(PgnMove { white_move: Some(new_move), black_move: None });
                assert(self.moves@.drop_last() =~= pairs0);
                assert(self.spec_plies() =~= plies_of(pairs0).push(new_move));
            } else {
                let filled = PgnMove { white_move: last.white_move, black_move: Some(new_move) };
                self.moves.set(n - 1, filled);
                assert(self.moves@.drop_last() =~= pairs0.drop_last());
                assert(self.spec_plies() =~= plies_of(pairs0).push(new_move));
            }
        }
    }

    /// Removes and returns the most recent half-move; a pair emptied by
    /// the removal is dropped. An empty list yields nothing.
    pub fn pop_move(&mut self) -> (removed: Option<ChessMove>)
        requires
            old(self).wf(),
        ensures
            final(self).wf(),
            old(self).spec_plies().len() == 0 ==> removed is None && *final(self) == *old(self),
            old(self).spec_plies().len() > 0 ==> removed == Some(
                old(self).spec_plies().last(),
            ) && final(self).spec_plies() == old(self).spec_plies().drop_last(),
    {
        let ghost pairs0 = self.moves@;
        let n = self.moves.len();
        if n == 0 {
            assert(self.spec_plies() =~= Seq::<ChessMove>::empty());
            return None;
        }
        let last = self.moves[n - 1];
        assert(last == pairs0.last());
        if let Some(b) = last.black_move {
            let trimmed = PgnMove { white_move: last.white_move, black_move: None };
            self.moves.set(n - 1, trimmed);
            assert(self.moves@.drop_last() =~= pairs0.drop_last());
            assert(plies_of(pairs0).len() > 0);
            assert(self.spec_plies() =~= plies_of(pairs0).drop_last());
            assert(plies_of(pairs0).last() == b);
            Some(b)
        } else {
            let w = last.white_move;
            self.moves.pop();
            assert(self.moves@ =~= pairs0.drop_last());
            assert(plies_of(pairs0).len() > 0);
            assert(self.spec_plies() =~= plies_of(pairs0).drop_last());
            assert(w is Some && plies_of(pairs0).last() == w->0);
            w
        }
    }

    /// Whose turn it is to move; derived from the last pair, never
    /// stored.
    pub fn get_turn(&self) -> (t: ChessTurn)
        ensures
            t == self.spec_turn(),
    {
        let n = self.moves.len();
        if n == 0 {
            return ChessTurn::WhiteToMove;
        }
        let last = &self.moves[n - 1];
        match last.get_state() {
            PgnMoveState::BlackToMove => ChessTurn::BlackToMove,
            _ => ChessTurn::WhiteToMove,
        }
    }
}

/// The turn state that a sequence of well-formed pairs derives.
pub open spec fn turn_of(pairs: Seq<PgnMove>) -> ChessTurn {
    if pairs.len() == 0 {
        ChessTurn::WhiteToMove
    } else if pairs.last().spec_state() == PgnMoveState::BlackToMove {
        ChessTurn::BlackToMove
    } else {
        ChessTurn::WhiteToMove
    }
}

pub open spec fn wf_pairs(pairs: Seq<PgnMove>) -> bool {
    &&& (forall|i: int| 0 <= i < pairs.len() ==> (#[trigger] pairs[i]).white_move is Some)
    &&& (forall|i: int| 0 <= i < pairs.len() - 1 ==> (#[trigger] pairs[i]).black_move is Some)
}

proof fn lemma_turn_parity_pairs(pairs: Seq<PgnMove>)
    requires
        wf_pairs(pairs),
    ensures
        turn_of(pairs) == ChessTurn::WhiteToMove <==> plies_of(pairs).len() % 2 == 0,
    decreases pairs.len(),
{
    if pairs.len() > 0 {
        let prefix = pairs.drop_last();
        assert(wf_pairs(prefix));
        lemma_turn_parity_pairs(prefix);
        if prefix.len() > 0 {
            assert(prefix.last() == pairs[pairs.len() - 2]);
            assert(prefix.last().black_move is Some);
            assert(turn_of(prefix) == ChessTurn::WhiteToMove);
        }
        assert(plies_of(prefix).len() % 2 == 0);
        assert(plies_of(pairs) == plies_of(prefix) + pairs.last().spec_plies());
    }
}

/// In a well-formed list the turn follows the number of half-moves
/// played: white moves on an even count, black on an odd one.
pub proof fn lemma_turn_parity(l: MoveList)
    requires
        l.wf(),
    ensures
        l.spec_turn() == ChessTurn::WhiteToMove <==> l.spec_plies().len() % 2 == 0,
{
    lemma_turn_parity_pairs(l.moves@);
}

} // verus!
