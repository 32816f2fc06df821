//! Why a call was rejected.

use vstd::prelude::*;
use vstd::string::StringExecFns;

verus! {

/// Every rejection leaves the game and the queued transfers untouched.
#[derive(Clone, Copy, Debug, PartialEq, Eq, Structural)]
pub enum ContractError {
    /// A join while two players are already committed.
    GameIsFull,
    /// A join, roll or leave once the game is decided.
    GameIsAlreadyOver,
    /// The caller is neither player (roll), or is not player one (leave).
    YouAreNotAPlayer,
    /// A roll before both players have joined.
    StillWaitingForPlayers,
    /// The funds attached to a join are not exactly the stake.
    MustDepositScrtToPlay,
    /// A leave while no player one is recorded.
    PlayerOneNotFound,
    /// A leave while both players are committed and no roll has happened.
    GameIsInProgress,
    /// A winner query before the game is decided.
    NoWinnerYet,
    /// A winner query no later than the height at which the roll happened.
    NotYetFinal,
}

impl ContractError {
    /// The message shown to the caller.
    pub open spec fn text(self) -> Seq<char> {
        match self {
            ContractError::GameIsFull => "The game is full."@,
            ContractError::GameIsAlreadyOver => "The game is already over."@,
            ContractError::YouAreNotAPlayer => "You are not a player."@,
            ContractError::StillWaitingForPlayers => "The game is still waiting for players."@,
            ContractError::MustDepositScrtToPlay => "Must deposit 1 SCRT to play."@,
            ContractError::PlayerOneNotFound => "Player 1 not found."@,
            ContractError::GameIsInProgress => "The game is in progress."@,
            ContractError::NoWinnerYet => "No winner yet."@,
            ContractError::NotYetFinal =>
                "Querying who won is not allowed until after the winner has been finalized."@,
        }
    }

    /// The message shown to the caller, as an owned string.
    pub fn message(&self) -> (s: String)
        ensures
            s@ == self.text(),
    {
        match self {
            ContractError::GameIsFull => String::from_str("The game is full."),
            ContractError::GameIsAlreadyOver => String::from_str("The game is already over."),
            ContractError::YouAreNotAPlayer => String::from_str("You are not a player."),
            ContractError::StillWaitingForPlayers => String::from_str(
                "The game is still waiting for players.",
            ),
            ContractError::MustDepositScrtToPlay => String::from_str(
                "Must deposit 1 SCRT to play.",
            ),
            ContractError::PlayerOneNotFound => String::from_str("Player 1 not found."),
            ContractError::GameIsInProgress => String::from_str("The game is in progress."),
            ContractError::NoWinnerYet => String::from_str("No winner yet."),
            ContractError::NotYetFinal => String::from_str(
                "Querying who won is not allowed until after the winner has been finalized.",
            ),
        }
    }
}

} // verus!
