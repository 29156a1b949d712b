//! What the plugin registers with its host: the command, its three
//! literals and the permission that guards it.

use crate::game::Choice;
use vstd::prelude::*;

verus! {

/// The names under which the command is registered.
pub const NAMES: [&'static str; 2] = ["rps", "rockpaperscissors"];

/// The command's description.
pub const DESCRIPTION: &'static str = "Play Rock Paper Scissors with the server.";

/// The permission node that guards the command.
pub const PERMISSION: &'static str = "hello-pumpkin:command.rockpaperscisors";

/// The description of the permission.
pub const PERMISSION_DESCRIPTION: &'static str = "Allows the player to play rock paper scisors";

/// The plugin itself. It holds no state.
#[derive(Debug, Clone, Copy)]
pub struct MyPlugin {}

impl MyPlugin {
    pub fn new() -> (plugin: Self)
        ensures
            plugin == (MyPlugin {}),
    {
        MyPlugin {}
    }
}

impl Default for MyPlugin {
    fn default() -> (plugin: Self)
        ensures
            plugin == (MyPlugin {}),
    {
        Self::new()
    }
}

impl Choice {
    /// The literal a player types after the command to show this symbol.
    pub open spec fn spec_literal(self) -> Seq<char> {
        match self {
            Choice::Rock => "rock"@,
            Choice::Paper => "paper"@,
            Choice::Scissors => "scissors"@,
        }
    }

    /// The literal a player types after the command to show this symbol.
    pub fn literal(&self) -> (literal: &'static str)
        ensures
            literal@ == self.spec_literal(),
    {
        match self {
            Choice::Rock => "rock",
            Choice::Paper => "paper",
            Choice::Scissors => "scissors",
        }
    }
}

/// No two symbols share a literal, so what a player types names one symbol
/// at most.
pub proof fn lemma_literals_differ(x: Choice, y: Choice)
    requires
        x != y,
    ensures
        x.spec_literal() != y.spec_literal(),
{
    reveal_strlit("rock");
    reveal_strlit("paper");
    reveal_strlit("scissors");
    assert(x.spec_literal().len() != y.spec_literal().len());
}

} // verus!
