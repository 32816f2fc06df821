//! The typed calls that the game accepts, and the answer to its one query.

use vstd::prelude::*;

verus! {

/// Sets the game up. It carries nothing: stake and denomination are fixed.
#[derive(Clone, Copy, Debug, PartialEq, Eq, Structural)]
pub struct InstantiateMsg {}

/// A call that changes the game.
#[derive(Clone, Debug, PartialEq, Eq)]
pub enum ExecuteMsg {
    /// Join with a display label and a secret; the stake is attached to the call.
    Join { name: String, secret: u128 },
    /// Roll the die. Either player may, once both have joined.
    RollDice {},
    /// Leave and take the stake back. Player one may, before player two joins.
    Leave {},
}

pub ghost enum ExecuteMsgView {
    Join { name: Seq<char>, secret: u128 },
    RollDice,
    Leave,
}

impl View for ExecuteMsg {
    type V = ExecuteMsgView;

    open spec fn view(&self) -> ExecuteMsgView {
        match self {
            ExecuteMsg::Join { name, secret } => ExecuteMsgView::Join {
                name: name@,
                secret: *secret,
            },
            ExecuteMsg::RollDice {  } => ExecuteMsgView::RollDice,
            ExecuteMsg::Leave {  } => ExecuteMsgView::Leave,
        }
    }
}

/// A read-only call.
#[derive(Clone, Copy, Debug, PartialEq, Eq, Structural)]
pub enum QueryMsg {
    WhoWon {},
}

/// The answer to `WhoWon`. It holds no secret.
#[derive(Clone, Debug, PartialEq, Eq)]
pub struct WinnerResponse {
    pub name: String,
    pub addr: String,
    pub dice_roll: u8,
}

pub ghost struct WinnerResponseView {
    pub name: Seq<char>,
    pub addr: Seq<char>,
    pub dice_roll: u8,
}

impl View for WinnerResponse {
    type V = WinnerResponseView;

    open spec fn view(&self) -> WinnerResponseView {
        WinnerResponseView { name: self.name@, addr: self.addr@, dice_roll: self.dice_roll }
    }
}

} // verus!
