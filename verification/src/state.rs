//! The persisted game record and its parts.

use crate::randomness::roll_of_secrets;
use vstd::prelude::*;

verus! {

/// Where the game stands. The states follow one another in this order.
#[derive(Clone, Copy, Debug, PartialEq, Eq, Structural)]
pub enum ContractState {
    /// Nobody has joined.
    Init,
    /// Player one has joined.
    Got1,
    /// Both players have joined; the die can be rolled.
    Got2,
    /// The die was rolled and the pot paid out.
    Done,
}

impl ContractState {
    /// The state's place in the order: the number of players it holds, and 3
    /// once the game is decided.
    pub open spec fn ordinal(self) -> u8 {
        match self {
            ContractState::Init => 0,
            ContractState::Got1 => 1,
            ContractState::Got2 => 2,
            ContractState::Done => 3,
        }
    }

    /// The state at a place in the order; a number past the last state
    /// stands for the first.
    pub open spec fn of_ordinal(num: u8) -> ContractState {
        if num == 1 {
            ContractState::Got1
        } else if num == 2 {
            ContractState::Got2
        } else if num == 3 {
            ContractState::Done
        } else {
            ContractState::Init
        }
    }
}

impl Default for ContractState {
    fn default() -> (r: Self)
        ensures
            r == ContractState::Init,
    {
        ContractState::Init
    }
}

impl From<u8> for ContractState {
    fn from(num: u8) -> (r: Self) {
        match num {
            0 => ContractState::Init,
            1 => ContractState::Got1,
            2 => ContractState::Got2,
            3 => ContractState::Done,
            _ => ContractState::Init,
        }
    }
}

impl vstd::std_specs::convert::FromSpecImpl<u8> for ContractState {
    open spec fn obeys_from_spec() -> bool {
        true
    }

    open spec fn from_spec(num: u8) -> Self {
        ContractState::of_ordinal(num)
    }
}

impl From<ContractState> for u8 {
    fn from(state: ContractState) -> (r: Self) {
        match state {
            ContractState::Init => 0,
            ContractState::Got1 => 1,
            ContractState::Got2 => 2,
            ContractState::Done => 3,
        }
    }
}

impl vstd::std_specs::convert::FromSpecImpl<ContractState> for u8 {
    open spec fn obeys_from_spec() -> bool {
        true
    }

    open spec fn from_spec(state: ContractState) -> Self {
        state.ordinal()
    }
}

/// A player who has joined: a display label, an identity and the committed secret.
#[derive(Clone, Debug, PartialEq, Eq)]
pub struct DiceRoller {
    name: String,
    addr: String,
    secret: u128,
}

pub ghost struct PlayerView {
    pub name: Seq<char>,
    pub addr: Seq<char>,
    pub secret: u128,
}

impl View for DiceRoller {
    type V = PlayerView;

    closed spec fn view(&self) -> PlayerView {
        PlayerView { name: self.name@, addr: self.addr@, secret: self.secret }
    }
}

impl Default for DiceRoller {
    fn default() -> (r: DiceRoller)
        ensures
            r@ == (PlayerView { name: Seq::empty(), addr: Seq::empty(), secret: 0 }),
    {
        DiceRoller { name: String::new(), addr: String::new(), secret: 0 }
    }
}

impl DiceRoller {
    pub fn new(name: String, addr: String, secret: u128) -> (r: DiceRoller)
        ensures
            r@ == (PlayerView { name: name@, addr: addr@, secret }),
    {
        DiceRoller { name, addr, secret }
    }

    pub fn name(&self) -> (r: &String)
        ensures
            r@ == self@.name,
    {
        &self.name
    }

    pub fn addr(&self) -> (r: &String)
        ensures
            r@ == self@.addr,
    {
        &self.addr
    }

    pub fn secret(&self) -> (r: &u128)
        ensures
            *r == self@.secret,
    {
        &self.secret
    }
}

/// The player to whom the pot went.
#[derive(Clone, Debug, PartialEq, Eq)]
pub struct Winner {
    name: String,
    addr: String,
}

pub ghost struct WinnerView {
    pub name: Seq<char>,
    pub addr: Seq<char>,
}

impl View for Winner {
    type V = WinnerView;

    closed spec fn view(&self) -> WinnerView {
        WinnerView { name: self.name@, addr: self.addr@ }
    }
}

impl Winner {
    pub fn new(name: String, addr: String) -> (r: Winner)
        ensures
            r@ == (WinnerView { name: name@, addr: addr@ }),
    {
        Winner { name, addr }
    }

    pub fn name(&self) -> (r: &String)
        ensures
            r@ == self@.name,
    {
        &self.name
    }

    pub fn addr(&self) -> (r: &String)
        ensures
            r@ == self@.addr,
    {
        &self.addr
    }
}

/// The winner that a die face selects: faces 1 to 3 player one, the others
/// player two.
pub open spec fn winner_of(roll: u8, one: PlayerView, two: PlayerView) -> WinnerView {
    if 1 <= roll <= 3 {
        WinnerView { name: one.name, addr: one.addr }
    } else {
        WinnerView { name: two.name, addr: two.addr }
    }
}

/// The whole game record, written and read as one value.
#[derive(Clone, Debug, PartialEq, Eq)]
pub struct State {
    pub state: ContractState,
    pub player_1: Option<DiceRoller>,
    pub player_2: Option<DiceRoller>,
    pub dice_roll: Option<u8>,
    pub winner: Option<Winner>,
    /// The ledger height at which the die was rolled.
    pub reveal_height: Option<u64>,
}

pub ghost struct GameView {
    pub state: ContractState,
    pub player_1: Option<PlayerView>,
    pub player_2: Option<PlayerView>,
    pub dice_roll: Option<u8>,
    pub winner: Option<WinnerView>,
    pub reveal_height: Option<u64>,
}

impl GameView {
    /// The game in which nobody has joined.
    pub open spec fn empty() -> GameView {
        GameView {
            state: ContractState::Init,
            player_1: None,
            player_2: None,
            dice_roll: None,
            winner: None,
            reveal_height: None,
        }
    }

    /// How many player slots are filled.
    pub open spec fn population(self) -> nat {
        (if self.player_1 is Some { 1nat } else { 0nat }) + (if self.player_2 is Some {
            1nat
        } else {
            0nat
        })
    }

    /// The invariant of the record. Before the roll, the number of players is
    /// the state's ordinal and neither outcome nor reveal height is set. Once
    /// decided, both players are still recorded, the face is the one their
    /// secrets give, and the winner is the player whom that face selects.
    pub open spec fn wf(self) -> bool {
        if self.state == ContractState::Done {
            &&& self.player_1 is Some
            &&& self.player_2 is Some
            &&& self.reveal_height is Some
            &&& self.dice_roll == Some(
                roll_of_secrets(self.player_1->0.secret, self.player_2->0.secret),
            )
            &&& self.winner == Some(
                winner_of(self.dice_roll->0, self.player_1->0, self.player_2->0),
            )
        } else {
            &&& self.population() == self.state.ordinal()
            &&& self.state == ContractState::Got1 ==> self.player_1 is Some
            &&& self.dice_roll is None
            &&& self.winner is None
            &&& self.reveal_height is None
        }
    }
}

impl View for State {
    type V = GameView;

    open spec fn view(&self) -> GameView {
        GameView {
            state: self.state,
            player_1: match self.player_1 {
                Some(p) => Some(p@),
                None => None,
            },
            player_2: match self.player_2 {
                Some(p) => Some(p@),
                None => None,
            },
            dice_roll: self.dice_roll,
            winner: match self.winner {
                Some(w) => Some(w@),
                None => None,
            },
            reveal_height: self.reveal_height,
        }
    }
}

impl State {
    /// The record of a game that nobody has joined.
    pub fn default() -> (r: State)
        ensures
            r@ == GameView::empty(),
            r@.wf(),
    {
        State {
            state: ContractState::default(),
            player_1: None,
            player_2: None,
            dice_roll: None,
            winner: None,
            reveal_height: None,
        }
    }
}

} // verus!
