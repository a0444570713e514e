//! The settlement handler: one wager round as an all-or-nothing unit of
//! work over the player's and the house's balances and the game record.

use vstd::prelude::*;

use crate::outcome::GameResult;
use crate::outcome::calculate_result;
use crate::outcome::classify;
use crate::outcome::derive_choice;
use crate::outcome::generate_computer_choice;

verus! {

/// The fixed fee F wagered on every round, in the smallest currency unit.
pub const FEE: u64 = 100;

/// The persistent per-game record: one is created per game instance and
/// settled at most once.
#[derive(Clone, Debug)]
pub struct GameState {
    /// Identifier bytes of the player who created the record.
    pub user: Vec<u8>,
    /// The computer's move, written exactly once, together with `result`.
    pub computer_choice: u8,
    /// 0 while the round is pending, then the terminal result code.
    pub result: u8,
    /// Amount associated with the record; the logic always wagers `FEE`.
    pub wager: u64,
}

/// Why a round was rejected; a rejected round leaves every balance and the
/// game record exactly as they were.
#[derive(Clone, Copy, Debug, PartialEq, Eq, Structural)]
pub enum GameError {
    /// The player's choice lies outside {0, 1, 2}.
    InvalidInput,
    /// A debit would drive the payer's balance negative.
    InsufficientFunds,
    /// The record is no longer pending: it has been settled before.
    InvalidState,
}

/// The stored code of a terminal result: 1 = win, 2 = loss, 3 = tie
/// (0 is reserved for a pending record).
pub open spec fn result_code(r: GameResult) -> u8 {
    match r {
        GameResult::Win => 1,
        GameResult::Loss => 2,
        GameResult::Tie => 3,
    }
}

/// Encodes a terminal result for storage in a game record.
pub fn encode_result(r: GameResult) -> (c: u8)
    ensures
        c == result_code(r),
{
    match r {
        GameResult::Win => 1,
        GameResult::Loss => 2,
        GameResult::Tie => 3,
    }
}

impl GameState {
    /// A well-formed record stores a known result code, and carries a
    /// meaningful computer choice exactly when it is settled.
    pub open spec fn wf(self) -> bool {
        &&& self.result <= 3
        &&& (self.result != 0 ==> self.computer_choice < 3)
    }
}

/// Creates the record for a new game, bound to its player: the round is
/// pending and the computer's choice is not yet meaningful.
pub fn initialize(user_key: Vec<u8>) -> (g: GameState)
    ensures
        g.user@ == user_key@,
        g.computer_choice == 0,
        g.result == 0,
        g.wager == 0,
        g.wf(),
{
    GameState { user: user_key, computer_choice: 0, result: 0, wager: 0 }
}

/// Plays one round against a pending game record: debits the fee from the
/// player, derives and stores the computer's choice and the result, and
/// pays out twice the fee on a win. Rejected rounds change nothing.
pub fn play(
    game: &mut GameState,
    user_key: &Vec<u8>,
    user_lamports: &mut u64,
    house_lamports: &mut u64,
    user_choice: u8,
) -> (r: Result<(), GameError>)
    requires
        old(game).user@ == user_key@,
        *old(user_lamports) + FEE <= u64::MAX,
        *old(house_lamports) + FEE <= u64::MAX,
    ensures
        *final(user_lamports) + *final(house_lamports) == *old(user_lamports) + *old(
            house_lamports,
        ),
        final(game).user@ == old(game).user@,
        final(game).wager == old(game).wager,
        old(game).wf() ==> final(game).wf(),
        match r {
            Ok(()) => {
                &&& old(game).result == 0
                &&& user_choice < 3
                &&& *old(user_lamports) >= FEE
                &&& final(game).computer_choice == derive_choice(user_key@)
                &&& final(game).result == result_code(
                    classify(user_choice, derive_choice(user_key@)),
                )
                &&& final(game).result != 0
                &&& if classify(user_choice, derive_choice(user_key@)) == GameResult::Win {
                    &&& *old(house_lamports) >= FEE
                    &&& *final(user_lamports) == *old(user_lamports) + FEE
                    &&& *final(house_lamports) == *old(house_lamports) - FEE
                } else {
                    &&& *final(user_lamports) == *old(user_lamports) - FEE
                    &&& *final(house_lamports) == *old(house_lamports) + FEE
                }
            },
            Err(e) => {
                &&& final(game).result == old(game).result
                &&& final(game).computer_choice == old(game).computer_choice
                &&& *final(user_lamports) == *old(user_lamports)
                &&& *final(house_lamports) == *old(house_lamports)
                &&& match e {
                    GameError::InvalidState => old(game).result != 0,
                    GameError::InvalidInput => old(game).result == 0 && user_choice >= 3,
                    GameError::InsufficientFunds => {
                        &&& old(game).result == 0
                        &&& user_choice < 3
                        &&& (*old(user_lamports) < FEE || (classify(
                            user_choice,
                            derive_choice(user_key@),
                        ) == GameResult::Win && *old(house_lamports) < FEE))
                    },
                }
            },
        },
{
    if game.result != 0 {
        return Err(GameError::InvalidState);
    }
    if user_choice >= 3 {
        return Err(GameError::InvalidInput);
    }
    let computer_choice = generate_computer_choice(user_key);
    let result = calculate_result(user_choice, computer_choice);
    if *user_lamports < FEE {
        return Err(GameError::InsufficientFunds);
    }
    if result == GameResult::Win && *house_lamports < FEE {
        return Err(GameError::InsufficientFunds);
    }
    // Fee transfer: player pays the house for the round.
    *user_lamports = *user_lamports - FEE;
    *house_lamports = *house_lamports + FEE;
    // Settle the record: choice and result are written together, once.
    game.computer_choice = computer_choice;
    game.result = encode_result(result);
    // Payout: a win returns the fee and pays out one more on top.
    if result == GameResult::Win {
        *user_lamports = *user_lamports + 2 * FEE;
        *house_lamports = *house_lamports - 2 * FEE;
    }
    Ok(())
}

} // verus!
