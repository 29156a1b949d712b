//! The three symbols and the rule that decides a round.

use vstd::prelude::*;

verus! {

/// One of the three symbols a player can show.
#[derive(PartialEq, Eq, Structural, Debug, Clone, Copy)]
pub enum Choice {
    Rock,
    Paper,
    Scissors,
}

/// How a round ends, seen from the side of the first player.
#[derive(PartialEq, Eq, Structural, Debug, Clone, Copy)]
pub enum Outcome {
    Win,
    Lose,
    Draw,
}

impl Choice {
    /// The one symbol that `self` wins against: rock blunts scissors,
    /// paper wraps rock, scissors cut paper.
    pub open spec fn prey(self) -> Choice {
        match self {
            Choice::Rock => Choice::Scissors,
            Choice::Paper => Choice::Rock,
            Choice::Scissors => Choice::Paper,
        }
    }

    /// `self` wins against `other`.
    pub open spec fn defeats(self, other: Choice) -> bool {
        other == self.prey()
    }

    /// The outcome of `self` played against `other`, for the player of `self`.
    pub open spec fn outcome_against(self, other: Choice) -> Outcome {
        if self == other {
            Outcome::Draw
        } else if self.defeats(other) {
            Outcome::Win
        } else {
            Outcome::Lose
        }
    }

    /// Decides a round: `Draw` on equal symbols, `Win` where `self` defeats
    /// `other`, `Lose` otherwise.
    pub fn beats(&self, other: &Choice) -> (outcome: Outcome)
        ensures
            outcome == self.outcome_against(*other),
    {
        if self == other {
            return Outcome::Draw;
        }
        match (self, other) {
            (Choice::Rock, Choice::Scissors) => Outcome::Win,
            (Choice::Paper, Choice::Rock) => Outcome::Win,
            (Choice::Scissors, Choice::Paper) => Outcome::Win,
            _ => Outcome::Lose,
        }
    }
}

/// A symbol played against itself is a draw, and a draw happens in no
/// other way.
pub proof fn lemma_draw_iff_equal(x: Choice, y: Choice)
    ensures
        x.outcome_against(x) == Outcome::Draw,
        x.outcome_against(y) == Outcome::Draw <==> x == y,
{
}

/// Of two different symbols exactly one defeats the other: never both,
/// never neither. So one side's win is the other side's loss.
pub proof fn lemma_one_winner(x: Choice, y: Choice)
    requires
        x != y,
    ensures
        x.defeats(y) != y.defeats(x),
        x.outcome_against(y) == Outcome::Win <==> y.outcome_against(x) == Outcome::Lose,
        x.outcome_against(y) == Outcome::Lose <==> y.outcome_against(x) == Outcome::Win,
        x.outcome_against(y) != Outcome::Draw,
{
}

/// The symbols chase each other in a ring of length three: each defeats
/// its prey, the prey's prey defeats it, and three steps along the ring
/// lead back to the start, while one or two steps do not.
pub proof fn lemma_ring_of_three(x: Choice)
    ensures
        x.defeats(x.prey()),
        x.prey().defeats(x.prey().prey()),
        x.prey().prey().defeats(x),
        x.prey().prey().prey() == x,
        x.prey() != x,
        x.prey().prey() != x,
{
}

} // verus!
