//! What holds of the game as a whole, proved from the operations' definitions.

use crate::contract::{
    execute_spec, join_spec, leave_spec, payout, refund, roll_spec, who_won_spec, Step,
};
use crate::error::ContractError;
use crate::ledger::{total_sent, MessageInfoView, TransferView, STAKE_AMOUNT};
use crate::msg::{ExecuteMsgView, WinnerResponseView};
use crate::randomness::{roll_of_secrets, roll_of_word};
use crate::state::{winner_of, ContractState, GameView, PlayerView, WinnerView};
use vstd::prelude::*;

verus! {

/// The label and identity under which a player would be recorded as winner.
pub open spec fn identity_of(player: PlayerView) -> WinnerView {
    WinnerView { name: player.name, addr: player.addr }
}

/// Every 32-bit word stands for a face from 1 to 6.
pub proof fn word_gives_a_face(word: u32)
    ensures
        1 <= roll_of_word(word) <= 6,
{
}

/// Whatever the two secrets are, the face derived from them lies between 1
/// and 6.
pub proof fn derived_face_in_range(secret_one: u128, secret_two: u128)
    ensures
        1 <= roll_of_secrets(secret_one, secret_two) <= 6,
{
}

/// The face recorded by a roll is the one that the two secrets give, in the
/// order of the slots. So two rolls over the same ordered pair of secrets
/// record the same face, whoever the players are, whoever calls, and at
/// whatever height.
pub proof fn face_depends_on_secrets_alone(
    a: GameView,
    height_a: u64,
    caller_a: MessageInfoView,
    b: GameView,
    height_b: u64,
    caller_b: MessageInfoView,
)
    requires
        roll_spec(a, height_a, caller_a) is Ok,
        roll_spec(b, height_b, caller_b) is Ok,
        a.player_1->0.secret == b.player_1->0.secret,
        a.player_2->0.secret == b.player_2->0.secret,
    ensures
        roll_spec(a, height_a, caller_a)->Ok_0.state.dice_roll == Some(
            roll_of_secrets(a.player_1->0.secret, a.player_2->0.secret),
        ),
        roll_spec(a, height_a, caller_a)->Ok_0.state.dice_roll == roll_spec(
            b,
            height_b,
            caller_b,
        )->Ok_0.state.dice_roll,
{
}

/// If the two players exchange slots while the secrets stay where they are,
/// the face is the same and the other player wins: the face selects a slot,
/// not a person.
pub proof fn exchanging_slots_exchanges_winner(
    a: GameView,
    b: GameView,
    height: u64,
    caller_a: MessageInfoView,
    caller_b: MessageInfoView,
)
    requires
        roll_spec(a, height, caller_a) is Ok,
        roll_spec(b, height, caller_b) is Ok,
        b.player_1 == Some(
            PlayerView {
                name: a.player_2->0.name,
                addr: a.player_2->0.addr,
                secret: a.player_1->0.secret,
            },
        ),
        b.player_2 == Some(
            PlayerView {
                name: a.player_1->0.name,
                addr: a.player_1->0.addr,
                secret: a.player_2->0.secret,
            },
        ),
    ensures
        ({
            let after_a = roll_spec(a, height, caller_a)->Ok_0.state;
            let after_b = roll_spec(b, height, caller_b)->Ok_0.state;
            &&& after_a.dice_roll == after_b.dice_roll
            &&& after_a.dice_roll->0 <= 3 ==> after_a.winner == Some(identity_of(a.player_1->0))
                && after_b.winner == Some(identity_of(a.player_2->0))
            &&& after_a.dice_roll->0 > 3 ==> after_a.winner == Some(identity_of(a.player_2->0))
                && after_b.winner == Some(identity_of(a.player_1->0))
        }),
{
}

/// After two accepted joins the game holds both players and awaits the roll.
pub proof fn two_joins_fill_the_game(
    game: GameView,
    first: MessageInfoView,
    first_name: Seq<char>,
    first_secret: u128,
    second: MessageInfoView,
    second_name: Seq<char>,
    second_secret: u128,
)
    requires
        join_spec(game, first, first_name, first_secret) is Ok,
        join_spec(
            join_spec(game, first, first_name, first_secret)->Ok_0.state,
            second,
            second_name,
            second_secret,
        ) is Ok,
    ensures
        ({
            let full = join_spec(
                join_spec(game, first, first_name, first_secret)->Ok_0.state,
                second,
                second_name,
                second_secret,
            )->Ok_0.state;
            &&& game.state == ContractState::Init
            &&& full.state == ContractState::Got2
            &&& full.player_1 == Some(
                PlayerView { name: first_name, addr: first.sender, secret: first_secret },
            )
            &&& full.player_2 == Some(
                PlayerView { name: second_name, addr: second.sender, secret: second_secret },
            )
        }),
{
}

/// After two accepted joins, a third join is rejected because the game is
/// full, whoever calls and whatever the call carries.
pub proof fn third_join_is_rejected(
    game: GameView,
    first: MessageInfoView,
    first_name: Seq<char>,
    first_secret: u128,
    second: MessageInfoView,
    second_name: Seq<char>,
    second_secret: u128,
    third: MessageInfoView,
    third_name: Seq<char>,
    third_secret: u128,
)
    requires
        join_spec(game, first, first_name, first_secret) is Ok,
        join_spec(
            join_spec(game, first, first_name, first_secret)->Ok_0.state,
            second,
            second_name,
            second_secret,
        ) is Ok,
    ensures
        join_spec(
            join_spec(
                join_spec(game, first, first_name, first_secret)->Ok_0.state,
                second,
                second_name,
                second_secret,
            )->Ok_0.state,
            third,
            third_name,
            third_secret,
        ) == Err::<Step, ContractError>(ContractError::GameIsFull),
{
}

/// While both players are in and the die has not been rolled, nobody can
/// leave: the call is rejected because the game is in progress, whoever
/// makes it.
pub proof fn no_leave_while_in_progress(game: GameView, caller: MessageInfoView)
    requires
        game.state == ContractState::Got2,
    ensures
        leave_spec(game, caller) == Err::<Step, ContractError>(
            ContractError::GameIsInProgress,
        ),
{
}

/// After two accepted joins, a leave is rejected because the game is in
/// progress, whoever calls.
pub proof fn no_leave_after_both_joined(
    game: GameView,
    first: MessageInfoView,
    first_name: Seq<char>,
    first_secret: u128,
    second: MessageInfoView,
    second_name: Seq<char>,
    second_secret: u128,
    caller: MessageInfoView,
)
    requires
        join_spec(game, first, first_name, first_secret) is Ok,
        join_spec(
            join_spec(game, first, first_name, first_secret)->Ok_0.state,
            second,
            second_name,
            second_secret,
        ) is Ok,
    ensures
        leave_spec(
            join_spec(
                join_spec(game, first, first_name, first_secret)->Ok_0.state,
                second,
                second_name,
                second_secret,
            )->Ok_0.state,
            caller,
        ) == Err::<Step, ContractError>(ContractError::GameIsInProgress),
{
}

/// Once the game is decided, every state-changing call is rejected because
/// the game is over.
pub proof fn decided_game_rejects_every_call(
    game: GameView,
    height: u64,
    caller: MessageInfoView,
    msg: ExecuteMsgView,
)
    requires
        game.state == ContractState::Done,
    ensures
        execute_spec(game, height, caller, msg) == Err::<Step, ContractError>(
            ContractError::GameIsAlreadyOver,
        ),
{
}

/// A winner query at the height of the roll is rejected as not yet final. At
/// every later height it is answered, always with the same answer: the
/// winner and the face that the roll recorded.
pub proof fn outcome_is_final_from_the_next_height(
    game: GameView,
    height: u64,
    caller: MessageInfoView,
    later: u64,
)
    requires
        roll_spec(game, height, caller) is Ok,
        height < later,
    ensures
        ({
            let decided = roll_spec(game, height, caller)->Ok_0.state;
            &&& who_won_spec(decided, height) == Err::<WinnerResponseView, ContractError>(
                ContractError::NotYetFinal,
            )
            &&& who_won_spec(decided, (height + 1) as u64) is Ok
            &&& who_won_spec(decided, later) == who_won_spec(decided, (height + 1) as u64)
            &&& who_won_spec(decided, later) == Ok::<WinnerResponseView, ContractError>(
                WinnerResponseView {
                    name: decided.winner->0.name,
                    addr: decided.winner->0.addr,
                    dice_roll: decided.dice_roll->0,
                },
            )
        }),
{
}

/// A winner query is never answered at or below the height of the roll, and
/// never for a game that is not decided.
pub proof fn no_answer_before_finality(game: GameView, height: u64)
    requires
        who_won_spec(game, height) is Ok,
    ensures
        game.state == ContractState::Done,
        game.reveal_height is Some,
        height > game.reveal_height->0,
{
}

/// The answer to a winner query is read off the recorded outcome and the
/// height of the roll: two games that agree on those are answered alike,
/// whatever secrets they hold.
pub proof fn answer_holds_no_secret(a: GameView, b: GameView, height: u64)
    requires
        a.state == b.state,
        a.dice_roll == b.dice_roll,
        a.winner == b.winner,
        a.reveal_height == b.reveal_height,
    ensures
        who_won_spec(a, height) == who_won_spec(b, height),
{
}

/// Over join, join, roll, the transfers queued are exactly one: the whole
/// pot, twice the stake, to the winner.
pub proof fn pot_goes_to_the_winner(
    game: GameView,
    first: MessageInfoView,
    first_name: Seq<char>,
    first_secret: u128,
    second: MessageInfoView,
    second_name: Seq<char>,
    second_secret: u128,
    height: u64,
    roller: MessageInfoView,
)
    requires
        join_spec(game, first, first_name, first_secret) is Ok,
        join_spec(
            join_spec(game, first, first_name, first_secret)->Ok_0.state,
            second,
            second_name,
            second_secret,
        ) is Ok,
        roll_spec(
            join_spec(
                join_spec(game, first, first_name, first_secret)->Ok_0.state,
                second,
                second_name,
                second_secret,
            )->Ok_0.state,
            height,
            roller,
        ) is Ok,
    ensures
        ({
            let one = join_spec(game, first, first_name, first_secret)->Ok_0;
            let two = join_spec(one.state, second, second_name, second_secret)->Ok_0;
            let three = roll_spec(two.state, height, roller)->Ok_0;
            let queued = one.response.messages + two.response.messages + three.response.messages;
            &&& three.state.winner is Some
            &&& three.state.winner->0.addr == first.sender || three.state.winner->0.addr
                == second.sender
            &&& queued == seq![payout(three.state.winner->0.addr)]
            &&& total_sent(queued) == 2 * STAKE_AMOUNT
        }),
{
    let one = join_spec(game, first, first_name, first_secret)->Ok_0;
    let two = join_spec(one.state, second, second_name, second_secret)->Ok_0;
    let three = roll_spec(two.state, height, roller)->Ok_0;
    let queued = one.response.messages + two.response.messages + three.response.messages;
    assert(queued =~= seq![payout(three.state.winner->0.addr)]);
    single_transfer_total(payout(three.state.winner->0.addr));
}

/// Over join, leave, the transfers queued are exactly one: the stake, back
/// to the player who joined. The game is then empty again.
pub proof fn stake_returns_to_the_leaver(
    game: GameView,
    joiner: MessageInfoView,
    name: Seq<char>,
    secret: u128,
    leaver: MessageInfoView,
)
    requires
        game.wf(),
        join_spec(game, joiner, name, secret) is Ok,
        leave_spec(join_spec(game, joiner, name, secret)->Ok_0.state, leaver) is Ok,
    ensures
        ({
            let one = join_spec(game, joiner, name, secret)->Ok_0;
            let two = leave_spec(one.state, leaver)->Ok_0;
            let queued = one.response.messages + two.response.messages;
            &&& leaver.sender == joiner.sender
            &&& queued == seq![refund(joiner.sender)]
            &&& total_sent(queued) == STAKE_AMOUNT
            &&& two.state == GameView::empty()
        }),
{
    let one = join_spec(game, joiner, name, secret)->Ok_0;
    let two = leave_spec(one.state, leaver)->Ok_0;
    let queued = one.response.messages + two.response.messages;
    assert(queued =~= seq![refund(joiner.sender)]);
    single_transfer_total(refund(joiner.sender));
}

/// A list of one transfer sends that transfer's amount.
pub proof fn single_transfer_total(transfer: TransferView)
    ensures
        total_sent(seq![transfer]) == transfer.amount,
{
    reveal_with_fuel(total_sent, 2);
    assert(seq![transfer].drop_last() =~= Seq::<TransferView>::empty());
}

/// The stakes that the ledger holds in escrow for a game: one per player
/// while the game is open, none before anyone joined and none once the pot
/// is paid out.
pub open spec fn stakes_held(game: GameView) -> nat {
    match game.state {
        ContractState::Init => 0,
        ContractState::Got1 => STAKE_AMOUNT as nat,
        ContractState::Got2 => 2 * STAKE_AMOUNT as nat,
        ContractState::Done => 0,
    }
}

/// What an accepted call brings in: one stake with a join, nothing otherwise.
pub open spec fn deposited(msg: ExecuteMsgView) -> nat {
    if msg is Join {
        STAKE_AMOUNT as nat
    } else {
        0
    }
}

/// Nothing is lost and nothing is paid twice: with every accepted call, what
/// was held plus what came in equals what is held afterwards plus what is
/// sent out.
pub proof fn stakes_are_accounted_for(
    game: GameView,
    height: u64,
    caller: MessageInfoView,
    msg: ExecuteMsgView,
)
    requires
        execute_spec(game, height, caller, msg) is Ok,
    ensures
        stakes_held(game) + deposited(msg) == stakes_held(
            execute_spec(game, height, caller, msg)->Ok_0.state,
        ) + total_sent(execute_spec(game, height, caller, msg)->Ok_0.response.messages),
{
    let step = execute_spec(game, height, caller, msg)->Ok_0;
    match msg {
        ExecuteMsgView::Join { .. } => {
            assert(step.response.messages =~= Seq::<TransferView>::empty());
        },
        ExecuteMsgView::RollDice => {
            let pot = payout(step.state.winner->0.addr);
            assert(step.response.messages =~= seq![pot]);
            single_transfer_total(pot);
        },
        ExecuteMsgView::Leave => {
            let stake = refund(game.player_1->0.addr);
            assert(step.response.messages =~= seq![stake]);
            single_transfer_total(stake);
        },
    }
}

/// One state-changing call as the ledger delivers it.
pub ghost struct Call {
    pub height: u64,
    pub caller: MessageInfoView,
    pub msg: ExecuteMsgView,
}

/// The game after a sequence of calls: an accepted call is carried out, a
/// rejected one changes nothing.
pub open spec fn game_after(game: GameView, calls: Seq<Call>) -> GameView
    decreases calls.len(),
{
    if calls.len() == 0 {
        game
    } else {
        let before = game_after(game, calls.drop_last());
        let call = calls.last();
        match execute_spec(before, call.height, call.caller, call.msg) {
            Ok(step) => step.state,
            Err(_) => before,
        }
    }
}

/// The stakes that the accepted calls of a sequence brought in.
pub open spec fn paid_in(game: GameView, calls: Seq<Call>) -> nat
    decreases calls.len(),
{
    if calls.len() == 0 {
        0
    } else {
        let before = game_after(game, calls.drop_last());
        let call = calls.last();
        paid_in(game, calls.drop_last()) + (if execute_spec(
            before,
            call.height,
            call.caller,
            call.msg,
        ) is Ok {
            deposited(call.msg)
        } else {
            0
        })
    }
}

/// The amounts that the accepted calls of a sequence queued for transfer.
pub open spec fn paid_out(game: GameView, calls: Seq<Call>) -> nat
    decreases calls.len(),
{
    if calls.len() == 0 {
        0
    } else {
        let before = game_after(game, calls.drop_last());
        let call = calls.last();
        paid_out(game, calls.drop_last()) + (match execute_spec(
            before,
            call.height,
            call.caller,
            call.msg,
        ) {
            Ok(step) => total_sent(step.response.messages),
            Err(_) => 0,
        })
    }
}

/// Whatever calls arrive, in whatever order, a game that started empty meets
/// the record's invariant.
pub proof fn every_reachable_game_meets_the_invariant(calls: Seq<Call>)
    ensures
        game_after(GameView::empty(), calls).wf(),
    decreases calls.len(),
{
    if calls.len() > 0 {
        every_reachable_game_meets_the_invariant(calls.drop_last());
        let before = game_after(GameView::empty(), calls.drop_last());
        let call = calls.last();
        if execute_spec(before, call.height, call.caller, call.msg) is Ok {
            accepted_call_keeps_invariant(before, call.height, call.caller, call.msg);
        }
    }
}

/// Whatever calls arrive, in whatever order: what the game started with plus
/// all that was paid in equals what it holds now plus all that was paid out.
pub proof fn funds_are_conserved(game: GameView, calls: Seq<Call>)
    ensures
        stakes_held(game) + paid_in(game, calls) == stakes_held(game_after(game, calls))
            + paid_out(game, calls),
    decreases calls.len(),
{
    if calls.len() > 0 {
        funds_are_conserved(game, calls.drop_last());
        let before = game_after(game, calls.drop_last());
        let call = calls.last();
        if execute_spec(before, call.height, call.caller, call.msg) is Ok {
            stakes_are_accounted_for(before, call.height, call.caller, call.msg);
        }
    }
}

/// An accepted join queues nothing; an accepted roll or leave queues one
/// transfer.
pub proof fn at_most_one_transfer_per_call(
    game: GameView,
    height: u64,
    caller: MessageInfoView,
    msg: ExecuteMsgView,
)
    requires
        execute_spec(game, height, caller, msg) is Ok,
    ensures
        execute_spec(game, height, caller, msg)->Ok_0.response.messages.len() == (if msg
            is Join {
            0nat
        } else {
            1nat
        }),
{
}

/// Every accepted call keeps the record's invariant: the number of players
/// follows the state, and outcome and reveal height are set exactly when the
/// game is decided.
pub proof fn accepted_call_keeps_invariant(
    game: GameView,
    height: u64,
    caller: MessageInfoView,
    msg: ExecuteMsgView,
)
    requires
        game.wf(),
        execute_spec(game, height, caller, msg) is Ok,
    ensures
        execute_spec(game, height, caller, msg)->Ok_0.state.wf(),
{
}

/// In a record that meets the invariant, outcome and reveal height are set if
/// and only if the game is decided, and the number of players is the state's
/// ordinal until then.
pub proof fn invariant_unfolded(game: GameView)
    requires
        game.wf(),
    ensures
        game.dice_roll is Some <==> game.state == ContractState::Done,
        game.winner is Some <==> game.state == ContractState::Done,
        game.reveal_height is Some <==> game.state == ContractState::Done,
        game.population() <= 2,
        game.state != ContractState::Done ==> game.population() == game.state.ordinal(),
        game.state == ContractState::Done ==> 1 <= game.dice_roll->0 <= 6 && game.winner == Some(
            winner_of(game.dice_roll->0, game.player_1->0, game.player_2->0),
        ),
{
}

} // verus!
