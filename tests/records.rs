use chess_escrow::chess::MoveOutcome;
use chess_escrow::contract::{
    command_in_bounds, from_records, instantiate, join_record, move_record, new_record,
    play_record, record_ok, resign_record, Coin, ContractError, START_FEN,
};
use chess_escrow::msg::ExecuteMsg;
use chess_escrow::state::GameStatus;

fn stake(amount: u128) -> Vec<Coin> {
    vec![Coin { denom: "uscrt".to_string(), amount }]
}

#[test]
fn record_lifecycle() {
    let g = new_record(7, "alice".to_string(), &stake(30), &Some(vec![1])).unwrap();
    assert_eq!(g.id, 7);
    assert_eq!(g.black, Some("alice".to_string()));
    assert_eq!(g.fen, START_FEN);
    assert_eq!(new_record(7, "alice".to_string(), &vec![], &None), Err(ContractError::InvalidFunds));

    let g = join_record(&g, "bob".to_string(), &stake(30)).unwrap().unwrap();
    assert_eq!(g.white, Some("bob".to_string()));
    assert_eq!(g.status, GameStatus::Active);
    assert_eq!(join_record(&g, "bob".to_string(), &vec![]), Ok(None));

    assert_eq!(
        play_record(&g, &"alice".to_string(), &"e7".to_string(), &"e5".to_string(), &None),
        Err(ContractError::WrongTurn)
    );
    let (g, t) =
        play_record(&g, &"bob".to_string(), &"e2".to_string(), &"e4".to_string(), &None).unwrap();
    assert!(t.is_empty());
    assert_eq!(g.turn, 1);

    let (after, t) =
        move_record(&g, &"alice".to_string(), Some(("x".to_string(), MoveOutcome::Checkmate))).unwrap();
    assert_eq!(after.status, GameStatus::BlackWins);
    assert_eq!((t[0].recipient.as_str(), t[0].amount), ("alice", 60));

    let (resigned, t) = resign_record(&g, &"bob".to_string()).unwrap();
    assert_eq!(resigned.status, GameStatus::WhiteResigned);
    assert_eq!((t[0].recipient.as_str(), t[0].amount), ("alice", 60));
    assert_eq!(resign_record(&resigned, &"bob".to_string()), Err(ContractError::GameNotActive));
}

#[test]
fn table_rebuild_and_bounds() {
    let g1 = new_record(1, "a".to_string(), &stake(1), &None).unwrap();
    let g2 = new_record(2, "b".to_string(), &stake(1), &None).unwrap();
    assert!(record_ok(&g1));
    let store = from_records(vec![g1.clone(), g2.clone()]).unwrap();
    assert_eq!(store.last_id, 2);
    assert!(from_records(vec![g2, g1]).is_none());
    assert!(command_in_bounds(&store, &ExecuteMsg::CreateGame {}, &stake(5)));
    assert!(!command_in_bounds(&store, &ExecuteMsg::CreateGame {}, &stake(u128::MAX)));
    assert!(command_in_bounds(&instantiate(), &ExecuteMsg::Resign { game_id: 3 }, &vec![]));
}
