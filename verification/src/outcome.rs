//! The outcome engine: classifying one rock/paper/scissors round.

use vstd::prelude::*;

verus! {

/// The Keccak-256 digest of a byte string, left abstract: the settlement
/// logic only ever reads it through [`derive_choice`].
pub uninterp spec fn keccak_of(s: Seq<u8>) -> Seq<u8>;

/// Relies on solana_program::keccak::hash (Keccak-256 through the sha3
/// crate): the 32-byte digest is a function of the input bytes alone.
#[verifier::external_body]
#[allow(deprecated)]
fn keccak256(bytes: &Vec<u8>) -> (r: Vec<u8>)
    ensures
        r@ == keccak_of(bytes@),
        r@.len() == 32,
{
    solana_program::keccak::hash(bytes.as_slice()).to_bytes().to_vec()
}

/// The computer's move for a player identifier: the first byte of the
/// identifier's Keccak-256 digest, reduced modulo 3.
pub open spec fn derive_choice(key: Seq<u8>) -> u8 {
    (keccak_of(key)[0] % 3) as u8
}

/// Derives the computer's move from the player's public identifier bytes:
/// 0 = rock, 1 = paper, 2 = scissors.
pub fn generate_computer_choice(user_key: &Vec<u8>) -> (c: u8)
    ensures
        c == derive_choice(user_key@),
        c < 3,
{
    let digest = keccak256(user_key);
    let first = digest[0];
    first % 3
}

/// The computer's move is a pure function of the identifier bytes alone:
/// equal identifiers always derive equal choices.
pub proof fn lemma_derive_choice_deterministic(a: Seq<u8>, b: Seq<u8>)
    requires
        a == b,
    ensures
        derive_choice(a) == derive_choice(b),
{
}

/// The terminal result of one round, from the player's point of view.
#[derive(Clone, Copy, Debug, PartialEq, Eq, Structural)]
pub enum GameResult {
    Win,
    Loss,
    Tie,
}

/// What one round comes to: equal choices tie; otherwise the fixed cycle
/// rock (0) beats scissors (2), paper (1) beats rock, scissors beat paper.
pub open spec fn classify(user_choice: u8, computer_choice: u8) -> GameResult {
    if user_choice == computer_choice {
        GameResult::Tie
    } else if (user_choice == 0 && computer_choice == 2)
        || (user_choice == 1 && computer_choice == 0)
        || (user_choice == 2 && computer_choice == 1) {
        GameResult::Win
    } else {
        GameResult::Loss
    }
}

/// Classifies one round. Choices are encoded 0 = rock, 1 = paper,
/// 2 = scissors; the caller keeps both inside that range.
pub fn calculate_result(user_choice: u8, computer_choice: u8) -> (r: GameResult)
    requires
        user_choice < 3,
        computer_choice < 3,
    ensures
        r == classify(user_choice, computer_choice),
{
    if user_choice == computer_choice {
        return GameResult::Tie;
    }
    match (user_choice, computer_choice) {
        (0, 2) | (1, 0) | (2, 1) => GameResult::Win,
        _ => GameResult::Loss,
    }
}

/// Classification follows the fixed cycle rock > scissors > paper > rock:
/// over choices 0 = rock, 1 = paper, 2 = scissors, equal choices tie, and
/// each of the six unequal pairs resolves exactly as the cycle dictates.
pub proof fn lemma_classify_cycle(user_choice: u8, computer_choice: u8)
    requires
        user_choice < 3,
        computer_choice < 3,
    ensures
        (classify(user_choice, computer_choice) == GameResult::Tie) <==> (user_choice
            == computer_choice),
        (classify(user_choice, computer_choice) == GameResult::Win) <==> ((user_choice == 0
            && computer_choice == 2) || (user_choice == 1 && computer_choice == 0) || (user_choice
            == 2 && computer_choice == 1)),
        (classify(user_choice, computer_choice) == GameResult::Loss) <==> ((user_choice == 0
            && computer_choice == 1) || (user_choice == 1 && computer_choice == 2) || (user_choice
            == 2 && computer_choice == 0)),
{
}

} // verus!
