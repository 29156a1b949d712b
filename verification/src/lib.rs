//! Rock, paper, scissors against the server: the rules of the game, the
//! server's random pick, the chat lines that report a round, and what the
//! plugin registers with its host.

pub mod chat;
pub mod draw;
pub mod game;
pub mod plugin;

pub use chat::{
    join_message, outcome_message, play, player_choice_message, round_messages,
    server_choice_message, Color, Message, Round, COMMAND_SUCCESS,
};
pub use draw::{choice_at, get_random_choice};
pub use game::{Choice, Outcome};
pub use plugin::{MyPlugin, DESCRIPTION, NAMES, PERMISSION, PERMISSION_DESCRIPTION};
