//! The chat lines that greet a player and report a round.

use crate::draw::{choices_in_order, get_random_choice};
use crate::game::{Choice, Outcome};
use vstd::prelude::*;
use vstd::string::StringExecFns;

verus! {

/// The named colours the chat lines use.
#[derive(PartialEq, Eq, Structural, Debug, Clone, Copy)]
pub enum Color {
    Aqua,
    Gold,
    Green,
    Red,
    Yellow,
}

/// A chat line: a text, an optional piece of text added behind it, and the
/// colour of the whole.
#[derive(Debug, Clone)]
pub struct Message {
    pub text: String,
    pub added: Option<String>,
    pub color: Color,
}

/// What a [`Message`] holds, as plain sequences of characters.
pub struct MessageView {
    pub text: Seq<char>,
    pub added: Option<Seq<char>>,
    pub color: Color,
}

impl View for Message {
    type V = MessageView;

    open spec fn view(&self) -> MessageView {
        MessageView {
            text: self.text@,
            added: match self.added {
                Some(s) => Some(s@),
                None => None,
            },
            color: self.color,
        }
    }
}

/// The value a command hands back to the host when it has run.
pub const COMMAND_SUCCESS: i32 = 1;

impl Choice {
    /// The symbol's name as the chat lines print it.
    pub open spec fn spec_name(self) -> Seq<char> {
        match self {
            Choice::Rock => "Rock"@,
            Choice::Paper => "Paper"@,
            Choice::Scissors => "Scissors"@,
        }
    }

    /// The symbol's name as the chat lines print it.
    pub fn name(&self) -> (name: &'static str)
        ensures
            name@ == self.spec_name(),
    {
        match self {
            Choice::Rock => "Rock",
            Choice::Paper => "Paper",
            Choice::Scissors => "Scissors",
        }
    }
}

/// The line that welcomes the player called `name`.
pub open spec fn spec_join_message(name: Seq<char>) -> MessageView {
    MessageView { text: "Welcome, "@ + name + "!"@, added: None, color: Color::Green }
}

/// The line that tells the player what they chose.
pub open spec fn spec_player_choice_message(choice: Choice) -> MessageView {
    MessageView { text: "You chose: "@, added: Some(choice.spec_name()), color: Color::Aqua }
}

/// The line that tells the player what the server chose.
pub open spec fn spec_server_choice_message(choice: Choice) -> MessageView {
    MessageView { text: "I chose: "@, added: Some(choice.spec_name()), color: Color::Gold }
}

/// The line that tells the player how the round ended for them.
pub open spec fn spec_outcome_message(outcome: Outcome) -> MessageView {
    match outcome {
        Outcome::Win => MessageView { text: "You win!"@, added: None, color: Color::Green },
        Outcome::Lose => MessageView { text: "You lose!"@, added: None, color: Color::Red },
        Outcome::Draw => MessageView { text: "It's a tie!"@, added: None, color: Color::Yellow },
    }
}

/// The three lines of a round, in the order in which they are sent: the
/// player's symbol, the server's symbol, the outcome for the player.
pub open spec fn spec_round_messages(player: Choice, server: Choice) -> Seq<MessageView> {
    seq![
        spec_player_choice_message(player),
        spec_server_choice_message(server),
        spec_outcome_message(player.outcome_against(server)),
    ]
}

/// The green line that welcomes a player who joins.
pub fn join_message(name: &str) -> (message: Message)
    ensures
        message@ == spec_join_message(name@),
{
    let mut text = String::from_str("Welcome, ");
    text.append(name);
    text.append("!");
    Message { text, added: None, color: Color::Green }
}

/// The aqua line "You chose: " with the symbol's name added.
pub fn player_choice_message(choice: Choice) -> (message: Message)
    ensures
        message@ == spec_player_choice_message(choice),
{
    Message {
        text: String::from_str("You chose: "),
        added: Some(String::from_str(choice.name())),
        color: Color::Aqua,
    }
}

/// The gold line "I chose: " with the symbol's name added.
pub fn server_choice_message(choice: Choice) -> (message: Message)
    ensures
        message@ == spec_server_choice_message(choice),
{
    Message {
        text: String::from_str("I chose: "),
        added: Some(String::from_str(choice.name())),
        color: Color::Gold,
    }
}

/// The line for an outcome: green on a win, red on a loss, yellow on a tie.
pub fn outcome_message(outcome: Outcome) -> (message: Message)
    ensures
        message@ == spec_outcome_message(outcome),
{
    match outcome {
        Outcome::Win => Message {
            text: String::from_str("You win!"),
            added: None,
            color: Color::Green,
        },
        Outcome::Lose => Message {
            text: String::from_str("You lose!"),
            added: None,
            color: Color::Red,
        },
        Outcome::Draw => Message {
            text: String::from_str("It's a tie!"),
            added: None,
            color: Color::Yellow,
        },
    }
}

/// The views of the lines in `messages`, in the same order.
pub open spec fn views(messages: Seq<Message>) -> Seq<MessageView> {
    messages.map_values(|m: Message| m@)
}

/// A round as it was played: the symbol the server showed and the lines
/// that report the round to the player.
#[derive(Debug, Clone)]
pub struct Round {
    pub server: Choice,
    pub messages: Vec<Message>,
}

/// The lines of a round in which the player showed `player` and the server
/// showed `server`.
pub fn round_messages(player: Choice, server: Choice) -> (messages: Vec<Message>)
    ensures
        messages@.len() == 3,
        views(messages@) == spec_round_messages(player, server),
{
    let mut messages: Vec<Message> = Vec::new();
    messages.push(player_choice_message(player));
    messages.push(server_choice_message(server));
    messages.push(outcome_message(player.beats(&server)));
    assert(views(messages@) =~= spec_round_messages(player, server));
    messages
}

/// Plays a round for a player who showed `player`: the server picks its
/// symbol at random, and the lines report the round against that pick,
/// whichever it was.
pub fn play(player: Choice) -> (round: Round)
    ensures
        choices_in_order().contains(round.server),
        round.messages@.len() == 3,
        views(round.messages@) == spec_round_messages(player, round.server),
{
    let server = get_random_choice();
    Round { server, messages: round_messages(player, server) }
}

} // verus!
