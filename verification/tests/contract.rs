use dice_game::contract::{
    deposit_funds, execute, instantiate, pick_winner, query, query_who_won, settle, try_join,
    try_leave, try_roll_dice,
};
use dice_game::error::ContractError;
use dice_game::ledger::{Attribute, Coin, Env, MessageInfo, Response, Transfer};
use dice_game::msg::{ExecuteMsg, InstantiateMsg, QueryMsg, WinnerResponse};
use dice_game::state::{ContractState, DiceRoller, State, Winner};

fn mock_env() -> Env {
    Env { block_height: 12_345 }
}

fn coins(amount: u128, denom: &str) -> Vec<Coin> {
    vec![Coin { denom: denom.to_string(), amount }]
}

fn mock_info(sender: &str, funds: &[Coin]) -> MessageInfo {
    MessageInfo { sender: sender.to_string(), funds: funds.to_vec() }
}

fn join(name: &str, secret: u128) -> ExecuteMsg {
    ExecuteMsg::Join { name: name.to_string(), secret }
}

fn attr(key: &str, value: &str) -> Attribute {
    Attribute { key: key.to_string(), value: value.to_string() }
}

fn send(to: &str, amount: u128) -> Transfer {
    Transfer { to_address: to.to_string(), denom: "uscrt".to_string(), amount }
}

/// A game that alice (secret 1234) and bob (secret 5678) have both joined.
fn game_with_both() -> State {
    let env = mock_env();
    let (mut state, _res) = instantiate(&env, &mock_info("creator", &[]), InstantiateMsg {});
    let alice = mock_info("alice", &coins(1_000_000, "uscrt"));
    execute(&mut state, &env, &alice, join("alice", 1234)).unwrap();
    let bob = mock_info("bob", &coins(1_000_000, "uscrt"));
    execute(&mut state, &env, &bob, join("bob", 5678)).unwrap();
    state
}

#[test]
fn proper_instantialization() {
    let msg = InstantiateMsg {};
    let info = mock_info("creator", &coins(1000, "earth"));

    let (state, res) = instantiate(&mock_env(), &info, msg);
    assert_eq!(0, res.messages.len());
    assert_eq!(state, State::default());
    assert_eq!(state.state, ContractState::Init);
}

#[test]
fn still_waiting_for_players() {
    let env = mock_env();

    let msg = InstantiateMsg {};
    let info = mock_info("creator", &coins(1000, "earth"));
    let (mut state, _res) = instantiate(&env, &info, msg);

    // Player 1 joins the game
    let secret = 1234u128;
    let msg = ExecuteMsg::Join { name: "alice".to_string(), secret };
    let info = mock_info("alice", &coins(1_000_000, "uscrt"));
    let _res = execute(&mut state, &env, &info, msg).unwrap();

    // Player 1 tries to roll the dice -- should produce an error
    let before = state.clone();
    let err = execute(&mut state, &env, &info, ExecuteMsg::RollDice {}).unwrap_err();
    match err {
        ContractError::StillWaitingForPlayers {} => assert!(true),
        _e => {
            assert!(false)
        }
    }
    assert_eq!(state, before);
}

#[test]
fn player_1_leaves_and_gets_refund() {
    let env = mock_env();

    let msg = InstantiateMsg {};
    let info = mock_info("creator", &coins(1000, "earth"));
    let (mut state, _res) = instantiate(&env, &info, msg);

    // Player 1 joins the game
    let secret = 1234u128;
    let msg = ExecuteMsg::Join { name: "alice".to_string(), secret };
    let info = mock_info("alice", &coins(1_000_000, "uscrt"));
    let _res = execute(&mut state, &env, &info, msg).unwrap();

    // Player 1 leaves the games and gets their 1 SCRT back
    let res = execute(&mut state, &env, &info, ExecuteMsg::Leave {}).unwrap();
    assert_eq!(res.messages, vec![send("alice", 1_000_000)]);
    assert_eq!(res.attributes, vec![attr("action", "leave"), attr("receiver", "alice")]);
}

#[test]
fn leave_when_game_in_progress() {
    let env = mock_env();

    let msg = InstantiateMsg {};
    let info = mock_info("creator", &coins(1000, "earth"));
    let (mut state, _res) = instantiate(&env, &info, msg);

    // Player 1 joins the game
    let secret = 1234u128;
    let msg = ExecuteMsg::Join { name: "alice".to_string(), secret };
    let info_player_1 = mock_info("alice", &coins(1_000_000, "uscrt"));
    let _res = execute(&mut state, &env, &info_player_1, msg).unwrap();

    // Player 2 joins the game
    let secret = 5678u128;
    let msg = ExecuteMsg::Join { name: "bob".to_string(), secret };
    let info_player_2 = mock_info("bob", &coins(1_000_000, "uscrt"));
    let _res = execute(&mut state, &env, &info_player_2, msg).unwrap();

    // Player 1 tries to leave the game, but it's in progress, awaiting a dice roll
    let err = execute(&mut state, &env, &info_player_1, ExecuteMsg::Leave {}).unwrap_err();
    match err {
        ContractError::GameIsInProgress {} => assert!(true),
        e => {
            assert!(false);
            panic!("error: {}", e.message());
        }
    }
}

#[test]
fn not_a_player() {
    let env = mock_env();

    let msg = InstantiateMsg {};
    let info = mock_info("creator", &coins(1000, "earth"));
    let (mut state, _res) = instantiate(&mock_env(), &info, msg);

    // Player 1 joins the game
    let secret = 1234u128;
    let msg = ExecuteMsg::Join { name: "alice".to_string(), secret };
    let info = mock_info("alice", &coins(1_000_000, "uscrt"));
    let _res = execute(&mut state, &env, &info, msg).unwrap();

    // Player 2 joins the game
    let secret = 5678u128;
    let msg = ExecuteMsg::Join { name: "bob".to_string(), secret };
    let info = mock_info("bob", &coins(1_000_000, "uscrt"));
    let _res = execute(&mut state, &env, &info, msg).unwrap();

    // Non-player tries to leave: with both stakes in, nobody leaves, player or not
    let info = mock_info("ted", &coins(1_000_000, "uscrt"));
    let err = execute(&mut state, &env, &info, ExecuteMsg::Leave {}).unwrap_err();
    match err {
        ContractError::GameIsInProgress {} => assert!(true),
        e => {
            assert!(false);
            panic!("error: {}", e.message());
        }
    }

    // Non-player tries to roll the dice
    let info = mock_info("ted", &coins(1_000_000, "uscrt"));
    let err = execute(&mut state, &env, &info, ExecuteMsg::RollDice {}).unwrap_err();
    match err {
        ContractError::YouAreNotAPlayer {} => assert!(true),
        e => {
            assert!(false);
            panic!("error: {}", e.message());
        }
    }
}

#[test]
fn game_is_full() {
    let env = mock_env();

    let msg = InstantiateMsg {};
    let info = mock_info("creator", &coins(1000, "earth"));
    let (mut state, _res) = instantiate(&mock_env(), &info, msg);

    // Player 1 joins the game
    let secret = 1234u128;
    let msg = ExecuteMsg::Join { name: "alice".to_string(), secret };
    let info = mock_info("alice", &coins(1_000_000, "uscrt"));
    let _res = execute(&mut state, &env, &info, msg).unwrap();

    // Player 2 joins the game
    let secret = 5678u128;
    let msg = ExecuteMsg::Join { name: "bob".to_string(), secret };
    let info = mock_info("bob", &coins(1_000_000, "uscrt"));
    let _res = execute(&mut state, &env, &info, msg).unwrap();

    // A 3rd player tries to join
    let secret = 9810u128;
    let info = mock_info("ted", &coins(1_000_000, "uscrt"));
    let msg = ExecuteMsg::Join { name: "ted".to_string(), secret };
    let err = execute(&mut state, &env, &info, msg).unwrap_err();
    match err {
        ContractError::GameIsFull {} => assert!(true),
        e => {
            assert!(false);
            panic!("error: {}", e.message());
        }
    }
}

#[test]
fn no_winner_yet() {
    let env = mock_env();

    let msg = InstantiateMsg {};
    let info = mock_info("creator", &coins(1000, "earth"));
    let (mut state, _res) = instantiate(&mock_env(), &info, msg);

    // Player 1 joins the game
    let secret = 1234u128;
    let msg = ExecuteMsg::Join { name: "alice".to_string(), secret };
    let info = mock_info("alice", &coins(1_000_000, "uscrt"));
    let _res = execute(&mut state, &env, &info, msg).unwrap();

    // Player 2 joins the game
    let secret = 5678u128;
    let msg = ExecuteMsg::Join { name: "bob".to_string(), secret };
    let info = mock_info("bob", &coins(1_000_000, "uscrt"));
    let _res = execute(&mut state, &env, &info, msg).unwrap();

    // there should be no winner yet since we didn't do a dice roll!
    let err = query(&state, &env, QueryMsg::WhoWon {}).unwrap_err();
    assert_eq!(err, ContractError::NoWinnerYet);
}

#[test]
fn query_not_allowed_in_same_block() {
    let env = mock_env();

    let msg = InstantiateMsg {};
    let info = mock_info("creator", &coins(1000, "earth"));
    let (mut state, _res) = instantiate(&env, &info, msg);

    // Player 1 joins the game
    let secret_1 = 1234u128;
    let msg_player_1 = ExecuteMsg::Join { name: "alice".to_string(), secret: secret_1 };
    let info = mock_info("alice", &coins(1_000_000, "uscrt"));
    let _res = execute(&mut state, &env, &info, msg_player_1).unwrap();

    // Player 2 joins the game
    let secret_2 = 5678u128;
    let msg_player_2 = ExecuteMsg::Join { name: "bob".to_string(), secret: secret_2 };
    let info = mock_info("bob", &coins(1_000_000, "uscrt"));
    let _res = execute(&mut state, &env, &info, msg_player_2).unwrap();

    // Player 2 rolls the dice
    let _res = execute(&mut state, &env, &info, ExecuteMsg::RollDice {}).unwrap();

    // the roll and the query on the winner cannot happen at the same block height
    let err = query(&state, &env, QueryMsg::WhoWon {}).unwrap_err();
    assert_eq!(err, ContractError::NotYetFinal);
}

#[test]
fn roll_the_dice() {
    let mut env = mock_env();
    let uscrt_denom = "uscrt".to_string();

    let msg = InstantiateMsg {};
    let info = mock_info("creator", &coins(1000, "earth"));
    let (mut state, _res) = instantiate(&env, &info, msg);

    let secret_1 = 1234u128;
    let msg_player_1 = ExecuteMsg::Join { name: "alice".to_string(), secret: secret_1 };
    let info = mock_info("alice", &coins(1_000_000, &uscrt_denom));
    let _res = execute(&mut state, &env, &info, msg_player_1).unwrap();

    let secret_2 = 5678u128;
    let msg_player_2 = ExecuteMsg::Join { name: "bob".to_string(), secret: secret_2 };
    let info = mock_info("bob", &coins(1_000_000, &uscrt_denom));
    let _res = execute(&mut state, &env, &info, msg_player_2).unwrap();

    // player 2 rolls the dice
    let res = execute(&mut state, &env, &info, ExecuteMsg::RollDice {}).unwrap();

    // advance block height by 1 to be able to query for winner
    env.block_height += 1;
    let value: WinnerResponse = query(&state, &env, QueryMsg::WhoWon {}).unwrap();
    assert_eq!(value.name.is_empty(), false);

    // the winner was queued the whole pot
    let expected = Transfer { to_address: value.addr.clone(), denom: uscrt_denom, amount: 2_000_000 };
    assert_eq!(res.messages, vec![expected]);
}

#[test]
fn game_is_already_over() {
    let env = mock_env();

    let msg = InstantiateMsg {};
    let info = mock_info("creator", &coins(1000, "earth"));
    let (mut state, _res) = instantiate(&env, &info, msg);

    // Player 1 joins the game
    let secret = 1234u128;
    let msg = ExecuteMsg::Join { name: "alice".to_string(), secret };
    let player_1_info = mock_info("alice", &coins(1_000_000, "uscrt"));
    let _res = execute(&mut state, &env, &player_1_info, msg).unwrap();

    // Player 2 joins the game
    let secret = 5678u128;
    let msg = ExecuteMsg::Join { name: "bob".to_string(), secret };
    let player_2_info = mock_info("bob", &coins(1_000_000, "uscrt"));
    let _res = execute(&mut state, &env, &player_2_info, msg).unwrap();

    // player 1 rolls the dice
    let msg = ExecuteMsg::RollDice {};
    let _res = execute(&mut state, &env, &player_1_info, msg.clone()).unwrap();

    // player 2 tries to roll the dice when game is over
    let err = execute(&mut state, &env, &player_2_info, msg).unwrap_err();
    match err {
        ContractError::GameIsAlreadyOver {} => assert!(true),
        e => {
            assert!(false);
            panic!("error: {}", e.message());
        }
    }
}

#[test]
fn join_fills_the_slots_in_turn() {
    let env = mock_env();
    let mut state = State::default();
    let alice = mock_info("alice", &coins(1_000_000, "uscrt"));
    let res = try_join(&mut state, &alice, "alice".to_string(), 1234).unwrap();
    assert_eq!(res, Response { messages: vec![], attributes: vec![attr("action", "join")] });
    assert_eq!(state.state, ContractState::Got1);
    assert_eq!(
        state.player_1,
        Some(DiceRoller::new("alice".to_string(), "alice".to_string(), 1234))
    );
    assert_eq!(state.player_2, None);

    let bob = mock_info("bob-address", &coins(1_000_000, "uscrt"));
    let res = execute(&mut state, &env, &bob, join("bob", 5678)).unwrap();
    assert_eq!(res, Response { messages: vec![], attributes: vec![attr("action", "join")] });
    assert_eq!(state.state, ContractState::Got2);
    assert_eq!(
        state.player_2,
        Some(DiceRoller::new("bob".to_string(), "bob-address".to_string(), 5678))
    );
    assert_eq!(state.dice_roll, None);
    assert_eq!(state.winner, None);
    assert_eq!(state.reveal_height, None);
}

#[test]
fn join_needs_exactly_the_stake() {
    let bad_funds: Vec<Vec<Coin>> = vec![
        vec![],
        coins(999_999, "uscrt"),
        coins(1_000_001, "uscrt"),
        coins(1_000_000, "earth"),
        coins(1_000_000, "USCRT"),
        vec![
            Coin { denom: "uscrt".to_string(), amount: 1_000_000 },
            Coin { denom: "uscrt".to_string(), amount: 1_000_000 },
        ],
        vec![
            Coin { denom: "uscrt".to_string(), amount: 500_000 },
            Coin { denom: "uscrt".to_string(), amount: 500_000 },
        ],
    ];
    for funds in bad_funds {
        let info = mock_info("alice", &funds);
        assert_eq!(deposit_funds(&info), Err(ContractError::MustDepositScrtToPlay));

        let mut state = State::default();
        let err = try_join(&mut state, &info, "alice".to_string(), 1).unwrap_err();
        assert_eq!(err, ContractError::MustDepositScrtToPlay);
        assert_eq!(state, State::default());

        // the second slot is guarded in the same way
        let mut state = State::default();
        let paid = mock_info("bob", &coins(1_000_000, "uscrt"));
        try_join(&mut state, &paid, "bob".to_string(), 2).unwrap();
        let before = state.clone();
        let err = try_join(&mut state, &info, "alice".to_string(), 1).unwrap_err();
        assert_eq!(err, ContractError::MustDepositScrtToPlay);
        assert_eq!(state, before);
    }
    let good = mock_info("alice", &coins(1_000_000, "uscrt"));
    assert_eq!(deposit_funds(&good), Ok(Response { messages: vec![], attributes: vec![] }));
}

#[test]
fn third_join_fails_whoever_calls() {
    let env = mock_env();
    let callers = [
        mock_info("alice", &coins(1_000_000, "uscrt")),
        mock_info("bob", &coins(1_000_000, "uscrt")),
        mock_info("ted", &coins(1_000_000, "uscrt")),
        mock_info("ted", &[]),
        mock_info("", &coins(7, "earth")),
    ];
    for caller in callers.iter() {
        let mut state = game_with_both();
        let before = state.clone();
        let err = execute(&mut state, &env, caller, join("ted", 9810)).unwrap_err();
        assert_eq!(err, ContractError::GameIsFull);
        assert_eq!(state, before);
    }
}

#[test]
fn nobody_leaves_mid_match() {
    let env = mock_env();
    for who in ["alice", "bob", "ted"] {
        let mut state = game_with_both();
        let before = state.clone();
        let err = try_leave(&mut state, &mock_info(who, &[])).unwrap_err();
        assert_eq!(err, ContractError::GameIsInProgress);
        assert_eq!(state, before);
    }
    // once decided, the game is over for a leave too
    for who in ["alice", "bob", "ted"] {
        let mut state = game_with_both();
        try_roll_dice(&mut state, &env, &mock_info("alice", &[])).unwrap();
        let before = state.clone();
        let err = try_leave(&mut state, &mock_info(who, &[])).unwrap_err();
        assert_eq!(err, ContractError::GameIsAlreadyOver);
        assert_eq!(state, before);
    }
}

#[test]
fn leave_on_an_empty_game_finds_no_player() {
    let mut state = State::default();
    let err = try_leave(&mut state, &mock_info("alice", &[])).unwrap_err();
    assert_eq!(err, ContractError::PlayerOneNotFound);
    assert_eq!(state, State::default());
}

#[test]
fn only_player_one_may_leave() {
    let mut state = State::default();
    let alice = mock_info("alice", &coins(1_000_000, "uscrt"));
    try_join(&mut state, &alice, "alice".to_string(), 1234).unwrap();
    let before = state.clone();
    let err = try_leave(&mut state, &mock_info("bob", &[])).unwrap_err();
    assert_eq!(err, ContractError::YouAreNotAPlayer);
    assert_eq!(state, before);
}

#[test]
fn roll_before_anyone_joined() {
    let mut state = State::default();
    let err = try_roll_dice(&mut state, &mock_env(), &mock_info("alice", &[])).unwrap_err();
    assert_eq!(err, ContractError::StillWaitingForPlayers);
    assert_eq!(state, State::default());
}

#[test]
fn either_player_may_roll() {
    let env = mock_env();
    let mut by_alice = game_with_both();
    let res_alice = try_roll_dice(&mut by_alice, &env, &mock_info("alice", &[])).unwrap();
    let mut by_bob = game_with_both();
    let res_bob = try_roll_dice(&mut by_bob, &env, &mock_info("bob", &[])).unwrap();
    assert_eq!(by_alice, by_bob);
    assert_eq!(res_alice, res_bob);
}

#[test]
fn roll_records_outcome_and_pays_the_pot() {
    let env = Env { block_height: 77 };
    let mut state = game_with_both();
    let before = state.clone();
    let res = try_roll_dice(&mut state, &env, &mock_info("bob", &[])).unwrap();
    assert_eq!(state.state, ContractState::Done);
    assert_eq!(state.dice_roll, Some(1));
    assert_eq!(state.winner, Some(Winner::new("alice".to_string(), "alice".to_string())));
    assert_eq!(state.reveal_height, Some(77));
    assert_eq!(state.player_1, before.player_1);
    assert_eq!(state.player_2, before.player_2);
    assert_eq!(res.messages, vec![send("alice", 2_000_000)]);
    assert_eq!(res.attributes, vec![attr("action", "roll dice"), attr("result", "1")]);
}

#[test]
fn face_selects_a_slot_not_a_person() {
    let env = mock_env();
    // secrets (5678, 1234) give face 2, so the first slot wins
    let mut state = State::default();
    let bob = mock_info("bob", &coins(1_000_000, "uscrt"));
    try_join(&mut state, &bob, "bob".to_string(), 5678).unwrap();
    let alice = mock_info("alice", &coins(1_000_000, "uscrt"));
    try_join(&mut state, &alice, "alice".to_string(), 1234).unwrap();
    let res = try_roll_dice(&mut state, &env, &alice).unwrap();
    assert_eq!(state.dice_roll, Some(2));
    assert_eq!(res.messages, vec![send("bob", 2_000_000)]);

    // the same ordered secrets with the two people exchanged: same face, other winner
    let mut state = State::default();
    try_join(&mut state, &alice, "alice".to_string(), 5678).unwrap();
    try_join(&mut state, &bob, "bob".to_string(), 1234).unwrap();
    let res = try_roll_dice(&mut state, &env, &alice).unwrap();
    assert_eq!(state.dice_roll, Some(2));
    assert_eq!(res.messages, vec![send("alice", 2_000_000)]);

    // secrets (1, 2) give face 5, so the second slot wins
    let mut state = State::default();
    try_join(&mut state, &alice, "alice".to_string(), 1).unwrap();
    try_join(&mut state, &bob, "bob".to_string(), 2).unwrap();
    let res = try_roll_dice(&mut state, &env, &alice).unwrap();
    assert_eq!(state.dice_roll, Some(5));
    assert_eq!(state.winner, Some(Winner::new("bob".to_string(), "bob".to_string())));
    assert_eq!(res.attributes, vec![attr("action", "roll dice"), attr("result", "5")]);
    assert_eq!(res.messages, vec![send("bob", 2_000_000)]);
}

#[test]
fn pick_winner_by_face() {
    let one = DiceRoller::new("alice".to_string(), "addr-a".to_string(), 1);
    let two = DiceRoller::new("bob".to_string(), "addr-b".to_string(), 2);
    let first = Winner::new("alice".to_string(), "addr-a".to_string());
    let second = Winner::new("bob".to_string(), "addr-b".to_string());
    assert_eq!(pick_winner(1, &one, &two), first);
    assert_eq!(pick_winner(2, &one, &two), first);
    assert_eq!(pick_winner(3, &one, &two), first);
    assert_eq!(pick_winner(4, &one, &two), second);
    assert_eq!(pick_winner(5, &one, &two), second);
    assert_eq!(pick_winner(6, &one, &two), second);
}

#[test]
fn finality_gate_is_strict() {
    let mut state = game_with_both();
    let height = 500u64;
    try_roll_dice(&mut state, &Env { block_height: height }, &mock_info("bob", &[])).unwrap();

    assert_eq!(
        query_who_won(&state, &Env { block_height: height - 1 }),
        Err(ContractError::NotYetFinal)
    );
    assert_eq!(
        query_who_won(&state, &Env { block_height: height }),
        Err(ContractError::NotYetFinal)
    );
    let expected =
        WinnerResponse { name: "alice".to_string(), addr: "alice".to_string(), dice_roll: 1 };
    let first = query_who_won(&state, &Env { block_height: height + 1 }).unwrap();
    assert_eq!(first, expected);
    for later in [height + 1, height + 2, height + 1000, u64::MAX] {
        assert_eq!(query_who_won(&state, &Env { block_height: later }), Ok(expected.clone()));
    }
}

#[test]
fn funds_are_conserved() {
    let env = mock_env();
    let mut state = State::default();
    let alice = mock_info("alice", &coins(1_000_000, "uscrt"));
    let bob = mock_info("bob", &coins(1_000_000, "uscrt"));
    let mut queued: Vec<Transfer> = Vec::new();
    queued.extend(try_join(&mut state, &alice, "alice".to_string(), 1234).unwrap().messages);
    queued.extend(try_join(&mut state, &bob, "bob".to_string(), 5678).unwrap().messages);
    queued.extend(try_roll_dice(&mut state, &env, &bob).unwrap().messages);
    let total: u128 = queued.iter().map(|t| t.amount).sum();
    assert_eq!(total, 2_000_000);
    assert_eq!(queued, vec![send("alice", 2_000_000)]);

    let mut state = State::default();
    let mut queued: Vec<Transfer> = Vec::new();
    queued.extend(try_join(&mut state, &alice, "alice".to_string(), 1234).unwrap().messages);
    queued.extend(try_leave(&mut state, &alice).unwrap().messages);
    let total: u128 = queued.iter().map(|t| t.amount).sum();
    assert_eq!(total, 1_000_000);
    assert_eq!(queued, vec![send("alice", 1_000_000)]);
}

#[test]
fn full_match_between_alice_and_bob() {
    let height = 4242u64;
    let env = Env { block_height: height };
    let (mut state, _res) = instantiate(&env, &mock_info("creator", &[]), InstantiateMsg {});
    let alice = mock_info("alice", &coins(1_000_000, "uscrt"));
    let bob = mock_info("bob", &coins(1_000_000, "uscrt"));
    execute(&mut state, &env, &alice, join("alice", 1234)).unwrap();
    execute(&mut state, &env, &bob, join("bob", 5678)).unwrap();
    let res = execute(&mut state, &env, &bob, ExecuteMsg::RollDice {}).unwrap();

    assert_eq!(res.messages.len(), 1);
    let paid = &res.messages[0];
    assert_eq!(paid.amount, 2_000_000);
    assert_eq!(paid.denom, "uscrt");
    assert!(paid.to_address == "alice" || paid.to_address == "bob");

    assert_eq!(query(&state, &env, QueryMsg::WhoWon {}), Err(ContractError::NotYetFinal));
    let next = Env { block_height: height + 1 };
    let answer = query(&state, &next, QueryMsg::WhoWon {}).unwrap();
    assert_eq!(answer.addr, paid.to_address);
    assert_eq!(answer.name, "alice");
    assert_eq!(answer.dice_roll, 1);
    for _ in 0..5 {
        assert_eq!(query(&state, &next, QueryMsg::WhoWon {}), Ok(answer.clone()));
    }
}

#[test]
fn leave_then_a_new_player_joins() {
    let env = mock_env();
    let (mut state, _res) = instantiate(&env, &mock_info("creator", &[]), InstantiateMsg {});
    let alice = mock_info("alice", &coins(1_000_000, "uscrt"));
    execute(&mut state, &env, &alice, join("alice", 1234)).unwrap();
    let res = execute(&mut state, &env, &alice, ExecuteMsg::Leave {}).unwrap();
    assert_eq!(res.messages, vec![send("alice", 1_000_000)]);
    assert_eq!(state, State::default());

    // alice is gone: she cannot leave a second time
    let err = execute(&mut state, &env, &alice, ExecuteMsg::Leave {}).unwrap_err();
    assert_eq!(err, ContractError::PlayerOneNotFound);

    let carol = mock_info("carol", &coins(1_000_000, "uscrt"));
    let res = execute(&mut state, &env, &carol, join("carol", 42)).unwrap();
    assert_eq!(res.attributes, vec![attr("action", "join")]);

    let mut fresh = State::default();
    execute(&mut fresh, &env, &carol, join("carol", 42)).unwrap();
    assert_eq!(state, fresh);
    assert_eq!(state.state, ContractState::Got1);
    assert_eq!(
        state.player_1,
        Some(DiceRoller::new("carol".to_string(), "carol".to_string(), 42))
    );
}

#[test]
fn decided_game_rejects_every_call() {
    let env = mock_env();
    let mut state = game_with_both();
    try_roll_dice(&mut state, &env, &mock_info("alice", &[])).unwrap();
    let before = state.clone();
    let ted = mock_info("ted", &coins(1_000_000, "uscrt"));
    for msg in [join("ted", 1), ExecuteMsg::RollDice {}, ExecuteMsg::Leave {}] {
        let err = execute(&mut state, &env, &ted, msg).unwrap_err();
        assert_eq!(err, ContractError::GameIsAlreadyOver);
        assert_eq!(state, before);
    }
}

#[test]
fn damaged_records_are_rejected() {
    let env = mock_env();
    let alice = mock_info("alice", &[]);

    // ready to roll, but a player is missing
    let mut state = game_with_both();
    state.player_2 = None;
    let before = state.clone();
    assert_eq!(
        try_roll_dice(&mut state, &env, &alice),
        Err(ContractError::StillWaitingForPlayers)
    );
    assert_eq!(state, before);

    // waiting for player two, but player one is missing
    let mut state = State::default();
    state.state = ContractState::Got1;
    assert_eq!(try_leave(&mut state, &alice), Err(ContractError::PlayerOneNotFound));

    // decided, but the parts of the outcome are missing
    let mut decided = game_with_both();
    try_roll_dice(&mut decided, &Env { block_height: 5 }, &alice).unwrap();
    let later = Env { block_height: 6 };
    let mut state = decided.clone();
    state.reveal_height = None;
    assert_eq!(query_who_won(&state, &later), Err(ContractError::NotYetFinal));
    let mut state = decided.clone();
    state.dice_roll = None;
    assert_eq!(query_who_won(&state, &later), Err(ContractError::NoWinnerYet));
    let mut state = decided.clone();
    state.winner = None;
    assert_eq!(query_who_won(&state, &later), Err(ContractError::NoWinnerYet));
    assert!(query_who_won(&decided, &later).is_ok());
}

#[test]
fn no_winner_before_the_roll() {
    let env = mock_env();
    let mut state = State::default();
    assert_eq!(query_who_won(&state, &env), Err(ContractError::NoWinnerYet));
    let alice = mock_info("alice", &coins(1_000_000, "uscrt"));
    try_join(&mut state, &alice, "alice".to_string(), 1234).unwrap();
    assert_eq!(query_who_won(&state, &env), Err(ContractError::NoWinnerYet));
}

#[test]
fn settle_pays_the_slot_that_the_face_selects() {
    for roll in 1u8..=6 {
        let mut state = game_with_both();
        let before = state.clone();
        let res = settle(&mut state, 900, roll).unwrap();
        let (name, addr) = if roll <= 3 { ("alice", "alice") } else { ("bob", "bob") };
        assert_eq!(state.state, ContractState::Done);
        assert_eq!(state.dice_roll, Some(roll));
        assert_eq!(state.winner, Some(Winner::new(name.to_string(), addr.to_string())));
        assert_eq!(state.reveal_height, Some(900));
        assert_eq!(state.player_1, before.player_1);
        assert_eq!(state.player_2, before.player_2);
        assert_eq!(res.messages, vec![send(addr, 2_000_000)]);
        assert_eq!(
            res.attributes,
            vec![attr("action", "roll dice"), attr("result", &roll.to_string())]
        );
        assert_eq!(
            query_who_won(&state, &Env { block_height: 901 }),
            Ok(WinnerResponse { name: name.to_string(), addr: addr.to_string(), dice_roll: roll })
        );
    }
}

#[test]
fn settle_needs_both_players_and_an_open_game() {
    let mut state = State::default();
    assert_eq!(settle(&mut state, 1, 3), Err(ContractError::StillWaitingForPlayers));
    assert_eq!(state, State::default());

    let alice = mock_info("alice", &coins(1_000_000, "uscrt"));
    try_join(&mut state, &alice, "alice".to_string(), 1234).unwrap();
    let before = state.clone();
    assert_eq!(settle(&mut state, 1, 3), Err(ContractError::StillWaitingForPlayers));
    assert_eq!(state, before);

    let mut state = game_with_both();
    settle(&mut state, 1, 3).unwrap();
    let before = state.clone();
    assert_eq!(settle(&mut state, 2, 4), Err(ContractError::GameIsAlreadyOver));
    assert_eq!(state, before);
}
