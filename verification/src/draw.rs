//! The server's pick: a random index turned into a symbol.

use crate::game::Choice;
use rand::RngExt;
use vstd::prelude::*;

verus! {

/// The symbols in the order in which an index picks them.
pub open spec fn choices_in_order() -> Seq<Choice> {
    seq![Choice::Rock, Choice::Paper, Choice::Scissors]
}

/// An index below `bound`, drawn by `rand::RngExt::random_range` over
/// `0..bound` from the thread-local generator `rand::rng()`.
///
/// Trusted: the contract claims only that the index lies in the range,
/// which is all that holds of every draw. `random_range` panics on an empty
/// range, hence `bound > 0`. `rand::rng()` panics if the operating system
/// cannot seed the generator; no argument can rule that out.
#[verifier::external_body]
fn random_below(bound: usize) -> (index: usize)
    requires
        bound > 0,
    ensures
        index < bound,
{
    rand::rng().random_range(0..bound)
}

/// The symbol at `index` in [`choices_in_order`].
pub fn choice_at(index: usize) -> (choice: Choice)
    requires
        index < 3,
    ensures
        choice == choices_in_order()[index as int],
{
    let choices = [Choice::Rock, Choice::Paper, Choice::Scissors];
    choices[index]
}

/// A symbol picked at random: the one at a freshly drawn index. Which one
/// is not known in advance; it is always one of the three.
pub fn get_random_choice() -> (choice: Choice)
    ensures
        choices_in_order().contains(choice),
{
    let index: usize = random_below(3);
    choice_at(index)
}

/// Every symbol sits at exactly one index below three, so a draw that
/// favours no index favours no symbol, and none is left out.
pub proof fn lemma_one_index_per_choice(choice: Choice)
    ensures
        choices_in_order().len() == 3,
        choices_in_order().contains(choice),
        forall|i: int, j: int|
            0 <= i < 3 && 0 <= j < 3 && choices_in_order()[i] == choice
                && choices_in_order()[j] == choice ==> i == j,
{
    let i: int = match choice {
        Choice::Rock => 0,
        Choice::Paper => 1,
        Choice::Scissors => 2,
    };
    assert(choices_in_order()[i] == choice);
}

} // verus!
