//! The turn arbiter: whose move it is, and whether the game is over.

use crate::message::{Color, Move};
use vstd::prelude::*;

verus! {

/// How a game ended.
#[derive(Clone, Copy, Debug, PartialEq, Eq, Structural)]
pub enum Outcome {
    /// A player gave the game up.
    Forfeit { by: Color },
    /// A player offered a draw.
    DrawOffered { by: Color },
    /// A player's connection was lost or broke the protocol.
    Abandoned { by: Color },
}

/// Why a move was turned down.
#[derive(Clone, Copy, Debug, PartialEq, Eq, Structural)]
pub enum Rejection {
    /// It is the other side's turn.
    WrongTurn,
    /// The game is over.
    GameOver,
}

/// What the arbiter says of a move.
#[derive(Clone, Copy, Debug, PartialEq, Eq, Structural)]
pub enum Verdict {
    /// The move counts; it is now the other side's turn.
    Accepted,
    /// The move was a signal of the side to move; the game is over.
    Ended(Outcome),
    /// The move does not count and nothing has changed.
    Rejected(Rejection),
}

/// The side to move once `n` moves have been accepted: White first.
pub open spec fn side_after(n: nat) -> Color {
    if n % 2 == 0 {
        Color::White
    } else {
        Color::Black
    }
}

/// The single source of truth for whose move it is.
///
/// It enforces alternation only; whether a move is legal on the board is
/// for the rules engine to say.
#[derive(Clone, Copy, Debug, PartialEq, Eq, Structural)]
pub struct TurnArbiter {
    pub(crate) current: Color,
    pub(crate) outcome: Option<Outcome>,
}

impl TurnArbiter {
    /// The side to move.
    pub open(crate) spec fn spec_turn(&self) -> Color {
        self.current
    }

    /// How the game ended, if it has.
    pub open(crate) spec fn spec_outcome(&self) -> Option<Outcome> {
        self.outcome
    }

    /// The arbiter of a game in which the given side is to move and
    /// which has ended as given, if it has.
    pub open(crate) spec fn in_state(turn: Color, outcome: Option<Outcome>) -> TurnArbiter {
        TurnArbiter { current: turn, outcome }
    }

    /// The arbiter of a game that is about to begin.
    pub open spec fn fresh() -> TurnArbiter {
        TurnArbiter::in_state(Color::White, None)
    }

    /// What the arbiter says of `mv` coming from `mover`.
    pub open spec fn verdict(&self, mv: Move, mover: Color) -> Verdict {
        if self.outcome() is Some {
            Verdict::Rejected(Rejection::GameOver)
        } else if mover != self.turn() {
            Verdict::Rejected(Rejection::WrongTurn)
        } else if mv.forfeit {
            Verdict::Ended(Outcome::Forfeit { by: mover })
        } else if mv.offer_draw {
            Verdict::Ended(Outcome::DrawOffered { by: mover })
        } else {
            Verdict::Accepted
        }
    }

    /// The arbiter once it has judged `mv` coming from `mover`: the turn
    /// passes on an accepted move, stays on a signal that ends the game,
    /// and nothing changes on a rejected one.
    pub open spec fn after(&self, mv: Move, mover: Color) -> TurnArbiter {
        match self.verdict(mv, mover) {
            Verdict::Accepted => TurnArbiter::in_state(self.turn().other(), None),
            Verdict::Ended(outcome) => TurnArbiter::in_state(self.turn(), Some(outcome)),
            Verdict::Rejected(_) => *self,
        }
    }

    /// The arbiter once the game has been given up for lost by `by`:
    /// unchanged if the game was over already.
    pub open spec fn after_loss_of(&self, by: Color) -> TurnArbiter {
        if self.outcome() is Some {
            *self
        } else {
            TurnArbiter::in_state(self.turn(), Some(Outcome::Abandoned { by }))
        }
    }

    /// The arbiter of a game that is about to begin: White is to move.
    pub fn new() -> (r: TurnArbiter)
        ensures
            r == TurnArbiter::fresh(),
    {
        TurnArbiter { current: Color::White, outcome: None }
    }

    /// The side to move.
    #[verifier::when_used_as_spec(spec_turn)]
    pub fn turn(&self) -> (r: Color)
        ensures
            r == self.turn(),
    {
        self.current
    }

    /// How the game ended, if it has.
    #[verifier::when_used_as_spec(spec_outcome)]
    pub fn outcome(&self) -> (r: Option<Outcome>)
        ensures
            r == self.outcome(),
    {
        self.outcome
    }

    /// Whether a move of `mover` would be in turn.
    pub fn expects(&self, mover: Color) -> (r: bool)
        ensures
            r == (self.outcome() is None && self.turn() == mover),
    {
        self.outcome.is_none() && self.current == mover
    }

    /// Judges `mv` coming from `mover`.
    ///
    /// Accepts it exactly when the game is on, `mover` is the side to
    /// move and the move is no signal; the turn then passes. A signal of
    /// the side to move ends the game and leaves the turn. Everything
    /// else is rejected and changes nothing.
    pub fn try_accept(&mut self, mv: &Move, mover: Color) -> (v: Verdict)
        ensures
            v == old(self).verdict(*mv, mover),
            *final(self) == old(self).after(*mv, mover),
    {
        if self.outcome.is_some() {
            Verdict::Rejected(Rejection::GameOver)
        } else if mover != self.current {
            Verdict::Rejected(Rejection::WrongTurn)
        } else if mv.forfeit {
            let outcome = Outcome::Forfeit { by: mover };
            self.outcome = Some(outcome);
            Verdict::Ended(outcome)
        } else if mv.offer_draw {
            let outcome = Outcome::DrawOffered { by: mover };
            self.outcome = Some(outcome);
            Verdict::Ended(outcome)
        } else {
            self.current = self.current.opponent();
            Verdict::Accepted
        }
    }

    /// Ends the game because `by` is gone, unless it is over already.
    pub fn abandon(&mut self, by: Color)
        ensures
            *final(self) == old(self).after_loss_of(by),
    {
        if self.outcome.is_none() {
            self.outcome = Some(Outcome::Abandoned { by });
        }
    }
}

/// The arbiter once the first `n` of the given attempts have been judged
/// in order, from the beginning of a game. An attempt is a move and the
/// side it comes from.
pub open spec fn arbiter_after(moves: Seq<Move>, movers: Seq<Color>, n: nat) -> TurnArbiter
    decreases n,
{
    if n == 0 {
        TurnArbiter::fresh()
    } else {
        arbiter_after(moves, movers, (n - 1) as nat).after(moves[n - 1], movers[n - 1])
    }
}

/// How many of the first `n` attempts were accepted.
pub open spec fn accepted_among(moves: Seq<Move>, movers: Seq<Color>, n: nat) -> nat
    decreases n,
{
    if n == 0 {
        0
    } else {
        let before = accepted_among(moves, movers, (n - 1) as nat);
        if arbiter_after(moves, movers, (n - 1) as nat).verdict(moves[n - 1], movers[n - 1])
            == Verdict::Accepted {
            before + 1
        } else {
            before
        }
    }
}

/// In a game of moves without signals, whoever sends them and in
/// whatever order: the side to move is always the one that the number of
/// accepted moves gives, White on an even number; an attempt is accepted
/// if and only if it comes from that side, and every other attempt is
/// rejected as out of turn and leaves the arbiter as it was.
pub proof fn lemma_alternation(moves: Seq<Move>, movers: Seq<Color>, n: nat)
    requires
        moves.len() == movers.len(),
        n < moves.len(),
        forall|i: int| 0 <= i < moves.len() ==> !(#[trigger] moves[i]).is_signal(),
    ensures
        arbiter_after(moves, movers, n).outcome() is None,
        arbiter_after(moves, movers, n).turn() == side_after(accepted_among(moves, movers, n)),
        arbiter_after(moves, movers, n).verdict(moves[n as int], movers[n as int])
            == Verdict::Accepted <==> movers[n as int] == side_after(
            accepted_among(moves, movers, n),
        ),
        movers[n as int] != side_after(accepted_among(moves, movers, n)) ==> {
            &&& arbiter_after(moves, movers, n).verdict(moves[n as int], movers[n as int])
                == Verdict::Rejected(Rejection::WrongTurn)
            &&& arbiter_after(moves, movers, n + 1) == arbiter_after(moves, movers, n)
        },
    decreases n,
{
    if n > 0 {
        lemma_alternation(moves, movers, (n - 1) as nat);
        assert(!moves[n - 1].is_signal());
    }
    assert(!moves[n as int].is_signal());
}

/// Where the two sides take turns, White first, and send no signals,
/// every move is accepted.
pub proof fn lemma_taking_turns(moves: Seq<Move>, movers: Seq<Color>, n: nat)
    requires
        moves.len() == movers.len(),
        n < moves.len(),
        forall|i: int| 0 <= i < moves.len() ==> !(#[trigger] moves[i]).is_signal(),
        forall|i: int| 0 <= i < movers.len() ==> #[trigger] movers[i] == side_after(i as nat),
    ensures
        accepted_among(moves, movers, n) == n,
        arbiter_after(moves, movers, n).verdict(moves[n as int], movers[n as int])
            == Verdict::Accepted,
    decreases n,
{
    if n > 0 {
        lemma_taking_turns(moves, movers, (n - 1) as nat);
    }
    lemma_alternation(moves, movers, n);
}

} // verus!
