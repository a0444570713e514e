//! A rock/paper/scissors wager game settled against a house-controlled
//! balance.
//!
//! The outcome engine derives the computer's move from the player's public
//! identifier and classifies the round; the settlement handler executes one
//! round as an all-or-nothing unit of work over the two balances and the
//! persistent game record.

pub mod outcome;
pub mod settle;

pub use outcome::GameResult;
pub use outcome::calculate_result;
pub use outcome::classify;
pub use outcome::derive_choice;
pub use outcome::generate_computer_choice;
pub use settle::FEE;
pub use settle::GameError;
pub use settle::GameState;
pub use settle::initialize;
pub use settle::play;
