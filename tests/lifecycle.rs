use chess_escrow::contract::{
    all_games, create_game, execute, get_game_state, instantiate, join_game, make_move, query,
    resign, apply_move, Coin, ContractError, GameStore, START_FEN,
};
use chess_escrow::chess::MoveOutcome;
use chess_escrow::msg::{ExecuteMsg, QueryAnswer, QueryMsg};
use chess_escrow::state::GameStatus;

fn stake(amount: u128) -> Vec<Coin> {
    vec![Coin { denom: "uscrt".to_string(), amount }]
}

fn addr(s: &str) -> String {
    s.to_string()
}

/// A store with one active game, alice white and bob black, staked at `wager`.
fn active_game(wager: u128) -> GameStore {
    let mut store = instantiate();
    let id = create_game(&mut store, addr("alice"), &stake(wager), &None).unwrap();
    assert_eq!(id, 1);
    join_game(&mut store, addr("bob"), 1, &stake(wager)).unwrap();
    store
}

fn mv(store: &mut GameStore, who: &str, from: &str, to: &str) -> Result<Vec<chess_escrow::settlement::Transfer>, ContractError> {
    make_move(store, &addr(who), 1, &addr(from), &addr(to), &None)
}

#[test]
fn scenario_create_join_move_resign() {
    let mut store = instantiate();
    let id = create_game(&mut store, addr("alice"), &stake(100), &None).unwrap();
    assert_eq!(id, 1);
    let g = get_game_state(&store, 1).unwrap();
    assert_eq!(g.status, GameStatus::Pending);
    assert_eq!(g.white, Some(addr("alice")));
    assert_eq!(g.black, None);
    assert_eq!(g.fen, START_FEN);
    assert_eq!(g.wager, 100);

    join_game(&mut store, addr("bob"), 1, &stake(100)).unwrap();
    let g = get_game_state(&store, 1).unwrap();
    assert_eq!(g.status, GameStatus::Active);
    assert_eq!(g.black, Some(addr("bob")));

    let t = mv(&mut store, "alice", "e2", "e4").unwrap();
    assert!(t.is_empty());
    let g = get_game_state(&store, 1).unwrap();
    assert_eq!(g.turn, 1);
    assert_eq!(g.status, GameStatus::Active);
    assert_eq!(g.fen, "rnbqkbnr/pppppppp/8/8/4P3/8/PPPP1PPP/RNBQKBNR b KQkq - 0 1");

    let t = resign(&mut store, &addr("bob"), 1).unwrap();
    let g = get_game_state(&store, 1).unwrap();
    assert_eq!(g.status, GameStatus::BlackResigned);
    assert_eq!(t.len(), 1);
    assert_eq!(t[0].recipient, "alice");
    assert_eq!(t[0].amount, 200);
}

#[test]
fn white_resigning_pays_black() {
    let mut store = active_game(70);
    let t = resign(&mut store, &addr("alice"), 1).unwrap();
    assert_eq!(get_game_state(&store, 1).unwrap().status, GameStatus::WhiteResigned);
    assert_eq!(t.len(), 1);
    assert_eq!(t[0].recipient, "bob");
    assert_eq!(t[0].amount, 140);
}

#[test]
fn ids_increase_without_reuse() {
    let mut store = instantiate();
    let mut last = 0u64;
    for _ in 0..50 {
        let id = create_game(&mut store, addr("alice"), &stake(5), &None).unwrap();
        assert!(id > last);
        last = id;
    }
    assert_eq!(last, 50);
    assert_eq!(all_games(&store).len(), 50);
}

#[test]
fn create_without_funds_is_refused() {
    let mut store = instantiate();
    assert_eq!(create_game(&mut store, addr("alice"), &vec![], &None), Err(ContractError::InvalidFunds));
    let wrong = vec![Coin { denom: "uatom".to_string(), amount: 100 }];
    assert_eq!(create_game(&mut store, addr("alice"), &wrong, &None), Err(ContractError::InvalidFunds));
    assert!(all_games(&store).is_empty());
    assert_eq!(store.last_id, 0);
}

#[test]
fn random_byte_picks_colour() {
    let mut store = instantiate();
    create_game(&mut store, addr("a"), &stake(1), &Some(vec![4, 1])).unwrap();
    create_game(&mut store, addr("b"), &stake(1), &Some(vec![7])).unwrap();
    create_game(&mut store, addr("c"), &stake(1), &Some(vec![])).unwrap();
    create_game(&mut store, addr("d"), &stake(1), &None).unwrap();
    let games = all_games(&store);
    assert_eq!(games[0].white, Some(addr("a")));
    assert_eq!(games[1].black, Some(addr("b")));
    assert_eq!(games[1].white, None);
    assert_eq!(games[2].white, Some(addr("c")));
    assert_eq!(games[3].white, Some(addr("d")));
}

#[test]
fn joining_fills_white_when_creator_took_black() {
    let mut store = instantiate();
    create_game(&mut store, addr("alice"), &stake(9), &Some(vec![3])).unwrap();
    join_game(&mut store, addr("bob"), 1, &stake(9)).unwrap();
    let g = get_game_state(&store, 1).unwrap();
    assert_eq!(g.white, Some(addr("bob")));
    assert_eq!(g.black, Some(addr("alice")));
    assert_eq!(g.status, GameStatus::Active);
}

#[test]
fn join_errors() {
    let mut store = instantiate();
    create_game(&mut store, addr("alice"), &stake(100), &None).unwrap();
    assert_eq!(join_game(&mut store, addr("bob"), 2, &stake(100)), Err(ContractError::GameNotFound));
    assert_eq!(join_game(&mut store, addr("bob"), 0, &stake(100)), Err(ContractError::GameNotFound));
    assert_eq!(join_game(&mut store, addr("bob"), 1, &vec![]), Err(ContractError::InvalidFunds));
    assert_eq!(join_game(&mut store, addr("bob"), 1, &stake(99)), Err(ContractError::WagerMismatch));
    let g = get_game_state(&store, 1).unwrap();
    assert_eq!(g.status, GameStatus::Pending);
    assert_eq!(g.black, None);
}

#[test]
fn join_twice_changes_nothing() {
    let mut store = active_game(100);
    let before = get_game_state(&store, 1).unwrap();
    assert_eq!(join_game(&mut store, addr("bob"), 1, &vec![]), Ok(()));
    assert_eq!(join_game(&mut store, addr("alice"), 1, &stake(3)), Ok(()));
    assert_eq!(join_game(&mut store, addr("carol"), 1, &vec![]), Ok(()));
    let after = get_game_state(&store, 1).unwrap();
    assert_eq!(before.white, after.white);
    assert_eq!(before.black, after.black);
    assert_eq!(before.status, after.status);
}

#[test]
fn turn_order_is_enforced() {
    let mut store = active_game(10);
    assert_eq!(mv(&mut store, "bob", "e7", "e5"), Err(ContractError::WrongTurn));
    assert_eq!(mv(&mut store, "carol", "e2", "e4"), Err(ContractError::NotAPlayer));
    mv(&mut store, "alice", "e2", "e4").unwrap();
    assert_eq!(mv(&mut store, "alice", "d2", "d4"), Err(ContractError::WrongTurn));
    mv(&mut store, "bob", "e7", "e5").unwrap();
    assert_eq!(get_game_state(&store, 1).unwrap().turn, 2);
}

#[test]
fn illegal_move_leaves_game_unchanged() {
    let mut store = active_game(10);
    let before = get_game_state(&store, 1).unwrap();
    assert_eq!(mv(&mut store, "alice", "e2", "e5"), Err(ContractError::IllegalMove));
    assert_eq!(mv(&mut store, "alice", "z9", "e4"), Err(ContractError::IllegalMove));
    assert_eq!(
        make_move(&mut store, &addr("alice"), 1, &addr("e2"), &addr("e4"), &Some(addr("k"))),
        Err(ContractError::IllegalMove)
    );
    let after = get_game_state(&store, 1).unwrap();
    assert_eq!(before.fen, after.fen);
    assert_eq!(before.turn, after.turn);
    assert_eq!(before.status, after.status);
}

#[test]
fn moves_need_an_active_game() {
    let mut store = instantiate();
    create_game(&mut store, addr("alice"), &stake(10), &None).unwrap();
    assert_eq!(mv(&mut store, "alice", "e2", "e4"), Err(ContractError::GameNotActive));
    assert_eq!(resign(&mut store, &addr("alice"), 1), Err(ContractError::GameNotActive));
    assert_eq!(mv(&mut store, "alice", "e2", "e4").err(), Some(ContractError::GameNotActive));
    assert_eq!(
        make_move(&mut store, &addr("alice"), 7, &addr("e2"), &addr("e4"), &None),
        Err(ContractError::GameNotFound)
    );
    assert_eq!(resign(&mut store, &addr("alice"), 7), Err(ContractError::GameNotFound));
}

#[test]
fn resign_by_stranger_is_refused() {
    let mut store = active_game(10);
    assert_eq!(resign(&mut store, &addr("carol"), 1), Err(ContractError::NotAPlayer));
    assert_eq!(get_game_state(&store, 1).unwrap().status, GameStatus::Active);
}

#[test]
fn fools_mate_pays_black() {
    let mut store = active_game(50);
    mv(&mut store, "alice", "f2", "f3").unwrap();
    mv(&mut store, "bob", "e7", "e5").unwrap();
    mv(&mut store, "alice", "g2", "g4").unwrap();
    let t = mv(&mut store, "bob", "d8", "h4").unwrap();
    let g = get_game_state(&store, 1).unwrap();
    assert_eq!(g.status, GameStatus::BlackWins);
    assert_eq!(g.turn, 4);
    assert_eq!(t.len(), 1);
    assert_eq!(t[0].recipient, "bob");
    assert_eq!(t[0].amount, 100);
}

#[test]
fn finished_game_refuses_moves_and_resignations() {
    let mut store = active_game(50);
    resign(&mut store, &addr("alice"), 1).unwrap();
    assert_eq!(mv(&mut store, "alice", "e2", "e4"), Err(ContractError::GameNotActive));
    assert_eq!(mv(&mut store, "bob", "e7", "e5"), Err(ContractError::WrongTurn));
    assert_eq!(mv(&mut store, "carol", "e2", "e4"), Err(ContractError::NotAPlayer));
    assert_eq!(resign(&mut store, &addr("bob"), 1), Err(ContractError::GameNotActive));
    assert_eq!(get_game_state(&store, 1).unwrap().status, GameStatus::WhiteResigned);
}

#[test]
fn checkmate_goes_to_the_side_that_moved() {
    let mut store = active_game(50);
    let t = apply_move(&mut store, &addr("alice"), 1, Some(("x".to_string(), MoveOutcome::Checkmate))).unwrap();
    let g = get_game_state(&store, 1).unwrap();
    assert_eq!(g.status, GameStatus::WhiteWins);
    assert_eq!(g.fen, "x");
    assert_eq!(g.turn, 1);
    assert_eq!(t.len(), 1);
    assert_eq!(t[0].recipient, "alice");
    assert_eq!(t[0].amount, 100);
}

#[test]
fn stalemate_refunds_both() {
    let mut store = active_game(100);
    let t = apply_move(&mut store, &addr("alice"), 1, Some(("x".to_string(), MoveOutcome::Stalemate))).unwrap();
    assert_eq!(get_game_state(&store, 1).unwrap().status, GameStatus::Stalemate);
    assert_eq!(t.len(), 2);
    assert_eq!((t[0].recipient.as_str(), t[0].amount), ("alice", 100));
    assert_eq!((t[1].recipient.as_str(), t[1].amount), ("bob", 100));
}

#[test]
fn rejected_verdict_is_an_illegal_move() {
    let mut store = active_game(100);
    assert_eq!(apply_move(&mut store, &addr("alice"), 1, None), Err(ContractError::IllegalMove));
    assert_eq!(get_game_state(&store, 1).unwrap().turn, 0);
}

#[test]
fn execute_and_query_dispatch() {
    let mut store = instantiate();
    let r = execute(&mut store, addr("alice"), &stake(100), &None, ExecuteMsg::CreateGame {}).unwrap();
    assert_eq!(r.game_id, Some(1));
    execute(&mut store, addr("bob"), &stake(100), &None, ExecuteMsg::JoinGame { game_id: 1 }).unwrap();
    let r = execute(
        &mut store,
        addr("alice"),
        &vec![],
        &None,
        ExecuteMsg::MakeMove { game_id: 1, move_from: addr("e2"), move_to: addr("e4"), promotion: None },
    )
    .unwrap();
    assert!(r.transfers.is_empty());
    let r = execute(&mut store, addr("bob"), &vec![], &None, ExecuteMsg::Resign { game_id: 1 }).unwrap();
    assert_eq!(r.transfers.len(), 1);
    assert_eq!(r.transfers[0].amount, 200);
    match query(&store, QueryMsg::GetGame { game_id: 1 }).unwrap() {
        QueryAnswer::GameState(g) => assert_eq!(g.status, GameStatus::BlackResigned),
        QueryAnswer::AllGames(_) => panic!("wrong answer"),
    }
    match query(&store, QueryMsg::ListGames {}).unwrap() {
        QueryAnswer::AllGames(v) => assert_eq!(v.len(), 1),
        QueryAnswer::GameState(_) => panic!("wrong answer"),
    }
    assert!(query(&store, QueryMsg::GetGame { game_id: 2 }).is_err());
}
