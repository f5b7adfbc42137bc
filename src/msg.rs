use vstd::prelude::*;

use crate::state::GameState;

verus! {

/// Sets up an empty game table.
#[derive(Clone, Debug, PartialEq)]
pub struct InstantiateMsg {}

/// The state-changing commands.
#[derive(Clone, Debug, PartialEq)]
pub enum ExecuteMsg {
    CreateGame {},
    JoinGame { game_id: u64 },
    MakeMove { game_id: u64, move_from: String, move_to: String, promotion: Option<String> },
    Resign { game_id: u64 },
}

/// The read-only requests.
#[derive(Clone, Debug, PartialEq)]
pub enum QueryMsg {
    GetGame { game_id: u64 },
    ListGames {},
}

/// What a query returns.
#[derive(Clone, Debug, PartialEq)]
pub enum QueryAnswer {
    GameState(GameState),
    AllGames(Vec<GameState>),
}

} // verus!
