use vstd::prelude::*;

use crate::text::{copy_text, same_text};

verus! {

/// Where a game stands in its lifecycle.
#[derive(Clone, Copy, Debug, PartialEq, Eq, Structural)]
pub enum GameStatus {
    /// Waiting for the second player to join.
    Pending,
    /// Both seats are filled; moves are accepted.
    Active,
    Stalemate,
    WhiteWins,
    BlackWins,
    WhiteResigned,
    BlackResigned,
}

/// The stable integer code of each status, as it is persisted.
pub open spec fn status_code_spec(s: GameStatus) -> i32 {
    match s {
        GameStatus::Pending => 1,
        GameStatus::Active => 2,
        GameStatus::Stalemate => 3,
        GameStatus::WhiteWins => 4,
        GameStatus::BlackWins => 5,
        GameStatus::WhiteResigned => 6,
        GameStatus::BlackResigned => 7,
    }
}

/// The status whose code is `c`, if there is one.
pub open spec fn status_from_code_spec(c: i32) -> Option<GameStatus> {
    if c == 1 {
        Some(GameStatus::Pending)
    } else if c == 2 {
        Some(GameStatus::Active)
    } else if c == 3 {
        Some(GameStatus::Stalemate)
    } else if c == 4 {
        Some(GameStatus::WhiteWins)
    } else if c == 5 {
        Some(GameStatus::BlackWins)
    } else if c == 6 {
        Some(GameStatus::WhiteResigned)
    } else if c == 7 {
        Some(GameStatus::BlackResigned)
    } else {
        None
    }
}

/// The five statuses after which no move or resignation is accepted.
pub open spec fn is_terminal(s: GameStatus) -> bool {
    !(s == GameStatus::Pending || s == GameStatus::Active)
}

impl GameStatus {
    /// The integer code under which this status is stored.
    pub fn code(&self) -> (r: i32)
        ensures
            r == status_code_spec(*self),
    {
        match self {
            GameStatus::Pending => 1,
            GameStatus::Active => 2,
            GameStatus::Stalemate => 3,
            GameStatus::WhiteWins => 4,
            GameStatus::BlackWins => 5,
            GameStatus::WhiteResigned => 6,
            GameStatus::BlackResigned => 7,
        }
    }

    /// Decodes a stored status code; `None` for a code that names no status.
    pub fn from_code(c: i32) -> (r: Option<GameStatus>)
        ensures
            r == status_from_code_spec(c),
    {
        match c {
            1 => Some(GameStatus::Pending),
            2 => Some(GameStatus::Active),
            3 => Some(GameStatus::Stalemate),
            4 => Some(GameStatus::WhiteWins),
            5 => Some(GameStatus::BlackWins),
            6 => Some(GameStatus::WhiteResigned),
            7 => Some(GameStatus::BlackResigned),
            _ => None,
        }
    }
}

/// Decoding a status's code gives the status back, and only codes of
/// statuses decode.
pub proof fn lemma_status_code_round_trip(s: GameStatus, c: i32)
    ensures
        status_from_code_spec(status_code_spec(s)) == Some(s),
        status_from_code_spec(c) matches Some(t) ==> status_code_spec(t) == c,
{
}

/// One game record.
#[derive(Clone, Debug, PartialEq)]
pub struct GameState {
    pub id: u64,
    /// The position in Forsyth-Edwards notation.
    pub fen: String,
    pub white: Option<String>,
    pub black: Option<String>,
    /// Number of accepted moves; even means white is to move.
    pub turn: u64,
    pub status: GameStatus,
    /// Stake each player puts in.
    pub wager: u128,
}

/// A game record over mathematical values.
pub struct GameView {
    pub id: u64,
    pub fen: Seq<char>,
    pub white: Option<Seq<char>>,
    pub black: Option<Seq<char>>,
    pub turn: u64,
    pub status: GameStatus,
    pub wager: u128,
}

pub open spec fn seat_view(s: Option<String>) -> Option<Seq<char>> {
    match s {
        Some(a) => Some(a@),
        None => None,
    }
}

/// Whether `who` holds the seat `seat`.
pub open spec fn holds_seat(seat: Option<Seq<char>>, who: Seq<char>) -> bool {
    seat == Some(who)
}

impl View for GameState {
    type V = GameView;

    open spec fn view(&self) -> GameView {
        GameView {
            id: self.id,
            fen: self.fen@,
            white: seat_view(self.white),
            black: seat_view(self.black),
            turn: self.turn,
            status: self.status,
            wager: self.wager,
        }
    }
}

/// Whether `who` holds the seat `seat`.
pub fn seat_is(seat: &Option<String>, who: &String) -> (r: bool)
    ensures
        r == holds_seat(seat_view(*seat), who@),
{
    match seat {
        Some(a) => same_text(a.as_str(), who.as_str()),
        None => false,
    }
}

pub fn copy_seat(seat: &Option<String>) -> (r: Option<String>)
    ensures
        seat_view(r) == seat_view(*seat),
{
    match seat {
        Some(a) => Some(copy_text(a)),
        None => None,
    }
}

impl GameState {
    /// A copy of this record with the same view.
    pub fn duplicate(&self) -> (r: GameState)
        ensures
            r@ == self@,
    {
        GameState {
            id: self.id,
            fen: copy_text(&self.fen),
            white: copy_seat(&self.white),
            black: copy_seat(&self.black),
            turn: self.turn,
            status: self.status,
            wager: self.wager,
        }
    }
}

} // verus!
