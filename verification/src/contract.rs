//! The game's operations: join, roll, leave, and the winner query.
//!
//! Each operation is stated twice. A spec function over the views says, for
//! every state and every call, whether the call is accepted and what it leaves
//! behind; the executable function is proved to do exactly that.

use crate::error::ContractError;
use crate::ledger::{
    stake_denom, stake_denomination, CoinView, Env, MessageInfo, MessageInfoView, Response,
    ResponseView, Transfer, TransferView, POT_AMOUNT, STAKE_AMOUNT,
};
use crate::msg::{
    ExecuteMsg, ExecuteMsgView, InstantiateMsg, QueryMsg, WinnerResponse, WinnerResponseView,
};
use crate::randomness::{derive_roll, roll_of_secrets};
use crate::state::{
    winner_of, ContractState, DiceRoller, GameView, PlayerView, State, Winner, WinnerView,
};
use crate::text::{decimal_string, decimal_text};
use vstd::prelude::*;

verus! {

/// What an accepted call leaves behind: the new game and the response.
pub ghost struct Step {
    pub state: GameView,
    pub response: ResponseView,
}

/// The attached funds are exactly one stake: one coin, of the stake's amount
/// and denomination.
pub open spec fn stake_paid(funds: Seq<CoinView>) -> bool {
    &&& funds.len() == 1
    &&& funds[0].amount == STAKE_AMOUNT
    &&& funds[0].denom == stake_denom()
}

/// The payout of the whole pot to `to`.
pub open spec fn payout(to: Seq<char>) -> TransferView {
    TransferView { to_address: to, denom: stake_denom(), amount: POT_AMOUNT }
}

/// The refund of one stake to `to`.
pub open spec fn refund(to: Seq<char>) -> TransferView {
    TransferView { to_address: to, denom: stake_denom(), amount: STAKE_AMOUNT }
}

/// What an accepted join hands back: no transfer, and the action's tag.
pub open spec fn join_response() -> ResponseView {
    ResponseView::empty().with_attribute("action"@, "join"@)
}

/// What an accepted roll hands back: the pot for the winner, the action's
/// tag, and the face in decimal.
pub open spec fn roll_response(winner: WinnerView, roll: u8) -> ResponseView {
    ResponseView::empty().with_message(payout(winner.addr)).with_attribute(
        "action"@,
        "roll dice"@,
    ).with_attribute("result"@, decimal_text(roll as nat))
}

/// What an accepted leave hands back: the stake for the leaver, the action's
/// tag, and the leaver's label.
pub open spec fn leave_response(leaver: PlayerView) -> ResponseView {
    ResponseView::empty().with_message(refund(leaver.addr)).with_attribute(
        "action"@,
        "leave"@,
    ).with_attribute("receiver"@, leaver.name)
}

/// Join. The first two joins that carry the stake fill the two player slots in
/// turn; after that the game is full, and once decided it is over.
pub open spec fn join_spec(
    game: GameView,
    info: MessageInfoView,
    name: Seq<char>,
    secret: u128,
) -> Result<Step, ContractError> {
    let joiner = PlayerView { name, addr: info.sender, secret };
    match game.state {
        ContractState::Init => if stake_paid(info.funds) {
            Ok(
                Step {
                    state: GameView {
                        state: ContractState::Got1,
                        player_1: Some(joiner),
                        ..game
                    },
                    response: join_response(),
                },
            )
        } else {
            Err(ContractError::MustDepositScrtToPlay)
        },
        ContractState::Got1 => if stake_paid(info.funds) {
            Ok(
                Step {
                    state: GameView {
                        state: ContractState::Got2,
                        player_2: Some(joiner),
                        ..game
                    },
                    response: join_response(),
                },
            )
        } else {
            Err(ContractError::MustDepositScrtToPlay)
        },
        ContractState::Got2 => Err(ContractError::GameIsFull),
        ContractState::Done => Err(ContractError::GameIsAlreadyOver),
    }
}

/// The second half of a roll, with the face given: only with both players
/// in, the face and the winner it selects are recorded with the height, and
/// the pot is queued for the winner.
pub open spec fn settle_spec(game: GameView, height: u64, roll: u8) -> Result<Step, ContractError> {
    match game.state {
        ContractState::Init => Err(ContractError::StillWaitingForPlayers),
        ContractState::Got1 => Err(ContractError::StillWaitingForPlayers),
        ContractState::Got2 => if game.player_1 is None || game.player_2 is None {
            Err(ContractError::StillWaitingForPlayers)
        } else {
            let winner = winner_of(roll, game.player_1->0, game.player_2->0);
            Ok(
                Step {
                    state: GameView {
                        state: ContractState::Done,
                        dice_roll: Some(roll),
                        winner: Some(winner),
                        reveal_height: Some(height),
                        ..game
                    },
                    response: roll_response(winner, roll),
                },
            )
        },
        ContractState::Done => Err(ContractError::GameIsAlreadyOver),
    }
}

/// Roll. Only with both players in, and only for one of them: the game is
/// settled with the face that the two secrets give.
pub open spec fn roll_spec(game: GameView, height: u64, info: MessageInfoView) -> Result<
    Step,
    ContractError,
> {
    match game.state {
        ContractState::Init => Err(ContractError::StillWaitingForPlayers),
        ContractState::Got1 => Err(ContractError::StillWaitingForPlayers),
        ContractState::Got2 => if game.player_1 is None || game.player_2 is None {
            Err(ContractError::StillWaitingForPlayers)
        } else if game.player_1->0.addr != info.sender && game.player_2->0.addr != info.sender {
            Err(ContractError::YouAreNotAPlayer)
        } else {
            settle_spec(
                game,
                height,
                roll_of_secrets(game.player_1->0.secret, game.player_2->0.secret),
            )
        },
        ContractState::Done => Err(ContractError::GameIsAlreadyOver),
    }
}

/// Leave. Only player one, and only while waiting for player two: the slot is
/// cleared and the stake queued for refund.
pub open spec fn leave_spec(game: GameView, info: MessageInfoView) -> Result<Step, ContractError> {
    match game.state {
        ContractState::Init => Err(ContractError::PlayerOneNotFound),
        ContractState::Got1 => match game.player_1 {
            None => Err(ContractError::PlayerOneNotFound),
            Some(leaver) => if leaver.addr != info.sender {
                Err(ContractError::YouAreNotAPlayer)
            } else {
                Ok(
                    Step {
                        state: GameView { state: ContractState::Init, player_1: None, ..game },
                        response: leave_response(leaver),
                    },
                )
            },
        },
        ContractState::Got2 => Err(ContractError::GameIsInProgress),
        ContractState::Done => Err(ContractError::GameIsAlreadyOver),
    }
}

/// The dispatch of a state-changing call to its operation.
pub open spec fn execute_spec(
    game: GameView,
    height: u64,
    info: MessageInfoView,
    msg: ExecuteMsgView,
) -> Result<Step, ContractError> {
    match msg {
        ExecuteMsgView::Join { name, secret } => join_spec(game, info, name, secret),
        ExecuteMsgView::RollDice => roll_spec(game, height, info),
        ExecuteMsgView::Leave => leave_spec(game, info),
    }
}

/// The winner query. It is answered only for a decided game, and only at a
/// height strictly above the one at which the die was rolled.
pub open spec fn who_won_spec(game: GameView, height: u64) -> Result<
    WinnerResponseView,
    ContractError,
> {
    if game.state != ContractState::Done {
        Err(ContractError::NoWinnerYet)
    } else if game.reveal_height is None || height <= game.reveal_height->0 {
        Err(ContractError::NotYetFinal)
    } else if game.dice_roll is None || game.winner is None {
        Err(ContractError::NoWinnerYet)
    } else {
        Ok(
            WinnerResponseView {
                name: game.winner->0.name,
                addr: game.winner->0.addr,
                dice_roll: game.dice_roll->0,
            },
        )
    }
}

/// A call did what `expected` says: accepted with that state and response, or
/// rejected with that error and the game as it was.
pub open spec fn carried_out(
    expected: Result<Step, ContractError>,
    before: GameView,
    after: GameView,
    res: Result<Response, ContractError>,
) -> bool {
    match expected {
        Ok(step) => res is Ok && res->Ok_0@ == step.response && after == step.state,
        Err(e) => res is Err && res->Err_0 == e && after == before,
    }
}

/// A query did what `expected` says: answered with that answer, or rejected
/// with that error.
pub open spec fn answered(
    expected: Result<WinnerResponseView, ContractError>,
    res: Result<WinnerResponse, ContractError>,
) -> bool {
    match expected {
        Ok(answer) => res is Ok && res->Ok_0@ == answer,
        Err(e) => res is Err && res->Err_0 == e,
    }
}

/// Sets up a game that nobody has joined.
pub fn instantiate(_env: &Env, _info: &MessageInfo, _msg: InstantiateMsg) -> (r: (State, Response))
    ensures
        r.0@ == GameView::empty(),
        r.0@.wf(),
        r.1@ == ResponseView::empty(),
{
    (State::default(), Response::new())
}

/// Checks that a call carries exactly one stake.
pub fn deposit_funds(info: &MessageInfo) -> (res: Result<Response, ContractError>)
    ensures
        stake_paid(info@.funds) ==> res is Ok && res->Ok_0@ == ResponseView::empty(),
        !stake_paid(info@.funds) ==> res is Err && res->Err_0
            == ContractError::MustDepositScrtToPlay,
{
    if info.funds.len() != 1 {
        return Err(ContractError::MustDepositScrtToPlay);
    }
    let coin = &info.funds[0];
    let wanted = stake_denomination();
    if coin.amount != STAKE_AMOUNT || !(coin.denom == wanted) {
        return Err(ContractError::MustDepositScrtToPlay);
    }
    Ok(Response::new())
}

/// The winner that a face selects among the two players.
pub fn pick_winner(roll: u8, one: &DiceRoller, two: &DiceRoller) -> (winner: Winner)
    ensures
        winner@ == winner_of(roll, one@, two@),
{
    if roll >= 1 && roll <= 3 {
        Winner::new(one.name().clone(), one.addr().clone())
    } else {
        Winner::new(two.name().clone(), two.addr().clone())
    }
}

/// Joins the game with a label and a secret, against the stake attached to
/// the call.
pub fn try_join(state: &mut State, info: &MessageInfo, name: String, secret: u128) -> (res: Result<
    Response,
    ContractError,
>)
    ensures
        carried_out(
            join_spec(old(state)@, info@, name@, secret),
            old(state)@,
            final(state)@,
            res,
        ),
        res is Err ==> *final(state) == *old(state),
        old(state)@.wf() ==> final(state)@.wf(),
{
    match state.state {
        ContractState::Init => {
            match deposit_funds(info) {
                Err(e) => {
                    return Err(e);
                },
                Ok(_) => {},
            }
            state.player_1 = Some(DiceRoller::new(name, info.sender.clone(), secret));
            state.state = ContractState::Got1;
        },
        ContractState::Got1 => {
            match deposit_funds(info) {
                Err(e) => {
                    return Err(e);
                },
                Ok(_) => {},
            }
            state.player_2 = Some(DiceRoller::new(name, info.sender.clone(), secret));
            state.state = ContractState::Got2;
        },
        ContractState::Got2 => {
            return Err(ContractError::GameIsFull);
        },
        ContractState::Done => {
            return Err(ContractError::GameIsAlreadyOver);
        },
    }
    Ok(Response::new().add_attribute("action", "join"))
}

/// Settles a game with a face that was already derived: the second half of
/// [`try_roll_dice`], which is the operation that callers of the game use.
pub fn settle(state: &mut State, height: u64, roll: u8) -> (res: Result<Response, ContractError>)
    ensures
        carried_out(settle_spec(old(state)@, height, roll), old(state)@, final(state)@, res),
        res is Err ==> *final(state) == *old(state),
        old(state)@.wf() && old(state)@.state == ContractState::Got2 && roll == roll_of_secrets(
            old(state)@.player_1->0.secret,
            old(state)@.player_2->0.secret,
        ) ==> final(state)@.wf(),
{
    match state.state {
        ContractState::Init => Err(ContractError::StillWaitingForPlayers),
        ContractState::Got1 => Err(ContractError::StillWaitingForPlayers),
        ContractState::Got2 => {
            let winner = match (&state.player_1, &state.player_2) {
                (Some(player_1), Some(player_2)) => pick_winner(roll, player_1, player_2),
                _ => {
                    return Err(ContractError::StillWaitingForPlayers);
                },
            };
            let payout = Transfer {
                to_address: winner.addr().clone(),
                denom: stake_denomination(),
                amount: POT_AMOUNT,
            };
            let result = decimal_string(roll);
            state.dice_roll = Some(roll);
            state.winner = Some(winner);
            state.reveal_height = Some(height);
            state.state = ContractState::Done;
            Ok(
                Response::new().add_message(payout).add_attribute("action", "roll dice")
                    .add_attribute("result", result.as_str()),
            )
        },
        ContractState::Done => Err(ContractError::GameIsAlreadyOver),
    }
}

/// Rolls the die for one of the two players, once both are in: derives the
/// face from the two secrets, records the outcome and the height, and queues
/// the pot for the winner.
pub fn try_roll_dice(state: &mut State, env: &Env, info: &MessageInfo) -> (res: Result<
    Response,
    ContractError,
>)
    ensures
        carried_out(
            roll_spec(old(state)@, env.block_height, info@),
            old(state)@,
            final(state)@,
            res,
        ),
        res is Err ==> *final(state) == *old(state),
        old(state)@.wf() ==> final(state)@.wf(),
{
    match state.state {
        ContractState::Init => Err(ContractError::StillWaitingForPlayers),
        ContractState::Got1 => Err(ContractError::StillWaitingForPlayers),
        ContractState::Got2 => {
            let roll = match (&state.player_1, &state.player_2) {
                (Some(player_1), Some(player_2)) => {
                    if !(*player_1.addr() == info.sender) && !(*player_2.addr() == info.sender) {
                        return Err(ContractError::YouAreNotAPlayer);
                    }
                    derive_roll(*player_1.secret(), *player_2.secret())
                },
                _ => {
                    return Err(ContractError::StillWaitingForPlayers);
                },
            };
            settle(state, env.block_height, roll)
        },
        ContractState::Done => Err(ContractError::GameIsAlreadyOver),
    }
}

/// Takes player one out of a game that player two has not joined yet, and
/// queues the refund of the stake.
pub fn try_leave(state: &mut State, info: &MessageInfo) -> (res: Result<Response, ContractError>)
    ensures
        carried_out(leave_spec(old(state)@, info@), old(state)@, final(state)@, res),
        res is Err ==> *final(state) == *old(state),
        old(state)@.wf() ==> final(state)@.wf(),
{
    match state.state {
        ContractState::Init => Err(ContractError::PlayerOneNotFound),
        ContractState::Got1 => {
            let (refund, receiver) = match &state.player_1 {
                None => {
                    return Err(ContractError::PlayerOneNotFound);
                },
                Some(player_1) => {
                    if !(*player_1.addr() == info.sender) {
                        return Err(ContractError::YouAreNotAPlayer);
                    }
                    let refund = Transfer {
                        to_address: player_1.addr().clone(),
                        denom: stake_denomination(),
                        amount: STAKE_AMOUNT,
                    };
                    (refund, player_1.name().clone())
                },
            };
            state.player_1 = None;
            state.state = ContractState::Init;
            Ok(
                Response::new().add_message(refund).add_attribute("action", "leave").add_attribute(
                    "receiver",
                    receiver.as_str(),
                ),
            )
        },
        ContractState::Got2 => Err(ContractError::GameIsInProgress),
        ContractState::Done => Err(ContractError::GameIsAlreadyOver),
    }
}

/// Carries out one state-changing call. A rejected call leaves the game as
/// it was and queues nothing.
pub fn execute(state: &mut State, env: &Env, info: &MessageInfo, msg: ExecuteMsg) -> (res: Result<
    Response,
    ContractError,
>)
    ensures
        carried_out(
            execute_spec(old(state)@, env.block_height, info@, msg@),
            old(state)@,
            final(state)@,
            res,
        ),
        res is Err ==> *final(state) == *old(state),
        old(state)@.wf() ==> final(state)@.wf(),
{
    match msg {
        ExecuteMsg::Join { name, secret } => try_join(state, info, name, secret),
        ExecuteMsg::RollDice {  } => try_roll_dice(state, env, info),
        ExecuteMsg::Leave {  } => try_leave(state, info),
    }
}

/// Answers who won, once the roll is final.
pub fn query_who_won(state: &State, env: &Env) -> (res: Result<WinnerResponse, ContractError>)
    ensures
        answered(who_won_spec(state@, env.block_height), res),
{
    if state.state != ContractState::Done {
        return Err(ContractError::NoWinnerYet);
    }
    let winner_height = match state.reveal_height {
        Some(h) => h,
        None => {
            return Err(ContractError::NotYetFinal);
        },
    };
    if env.block_height <= winner_height {
        return Err(ContractError::NotYetFinal);
    }
    let dice_roll = match state.dice_roll {
        Some(dice_roll) => dice_roll,
        None => {
            return Err(ContractError::NoWinnerYet);
        },
    };
    match &state.winner {
        Some(winner) => Ok(
            WinnerResponse {
                name: winner.name().clone(),
                addr: winner.addr().clone(),
                dice_roll,
            },
        ),
        None => Err(ContractError::NoWinnerYet),
    }
}

/// Answers a read-only call.
pub fn query(state: &State, env: &Env, msg: QueryMsg) -> (res: Result<
    WinnerResponse,
    ContractError,
>)
    ensures
        answered(who_won_spec(state@, env.block_height), res),
{
    match msg {
        QueryMsg::WhoWon {  } => query_who_won(state, env),
    }
}

} // verus!
