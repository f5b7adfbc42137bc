use vstd::prelude::*;

use crate::chess::{engine_verdict, opt_text, validate_move, MoveOutcome};
use crate::msg::{ExecuteMsg, QueryAnswer, QueryMsg};
use crate::settlement::{
    handle_wager, settlement, transfers_view, Transfer, TransferView, MAX_WAGER,
};
use crate::state::{holds_seat, seat_is, GameState, GameStatus, GameView};
use crate::text::same_text;

verus! {

/// The position every game starts from.
pub const START_FEN: &'static str = "rnbqkbnr/pppppppp/8/8/8/8/PPPPPPPP/RNBQKBNR w KQkq - 0 1";

/// The denomination that stakes and payouts are made in.
pub const DENOM: &'static str = "uscrt";

/// Why a command was refused. A refused command changes nothing.
#[derive(Clone, Copy, Debug, PartialEq, Eq, Structural)]
pub enum ContractError {
    /// No stake was attached, or it was not in the settlement currency.
    InvalidFunds,
    /// The joining stake differs from the game's wager.
    WagerMismatch,
    GameNotFound,
    /// The mover is seated, but it is the other side's turn.
    WrongTurn,
    /// The sender holds no seat in the game.
    NotAPlayer,
    /// The rules engine did not accept the move.
    IllegalMove,
    /// Resignation outside an active game, or a move outside one.
    GameNotActive,
}

/// An amount of one denomination.
#[derive(Clone, Debug, PartialEq)]
pub struct Coin {
    pub denom: String,
    pub amount: u128,
}

pub struct CoinView {
    pub denom: Seq<char>,
    pub amount: u128,
}

impl View for Coin {
    type V = CoinView;

    open spec fn view(&self) -> CoinView {
        CoinView { denom: self.denom@, amount: self.amount }
    }
}

pub open spec fn coins_view(v: Seq<Coin>) -> Seq<CoinView> {
    v.map_values(|c: Coin| c@)
}

pub open spec fn bytes_view(o: Option<Vec<u8>>) -> Option<Seq<u8>> {
    match o {
        Some(b) => Some(b@),
        None => None,
    }
}

/// The stake that the attached funds make: the first coin, when it is in
/// the settlement currency.
pub open spec fn stake_of(funds: Seq<CoinView>) -> Option<u128> {
    if funds.len() >= 1 && funds[0].denom == DENOM@ {
        Some(funds[0].amount)
    } else {
        None
    }
}

/// Whether the creator of a game takes white: the low bit of the first
/// random byte picks the colour, and without random bytes the creator is
/// white.
pub open spec fn creator_is_white(random: Option<Seq<u8>>) -> bool {
    match random {
        Some(b) => b.len() == 0 || b[0] % 2 == 0,
        None => true,
    }
}

/// The record a new game starts with.
pub open spec fn new_game(id: u64, creator: Seq<char>, wager: u128, random: Option<Seq<u8>>) -> GameView {
    GameView {
        id,
        fen: START_FEN@,
        white: if creator_is_white(random) { Some(creator) } else { None },
        black: if creator_is_white(random) { None } else { Some(creator) },
        turn: 0,
        status: GameStatus::Pending,
        wager,
    }
}

/// The game table and the id counter, over mathematical values.
pub struct StoreView {
    pub games: Seq<GameView>,
    pub last_id: u64,
}

/// Invariant of one record: its stake can be paid out twice over, and no
/// identity holds both seats.
pub open spec fn game_ok(g: GameView) -> bool {
    &&& g.wager <= MAX_WAGER
    &&& !(g.white is Some && g.white == g.black)
}

/// Invariant of the table: game `i + 1` is stored at index `i`, and the
/// counter holds the last id handed out.
pub open spec fn store_ok(s: StoreView) -> bool {
    &&& s.last_id == s.games.len()
    &&& forall|i: int| 0 <= i < s.games.len() ==> (#[trigger] s.games[i]).id == i + 1 && game_ok(
        s.games[i],
    )
}

pub open spec fn has_game(s: StoreView, id: u64) -> bool {
    1 <= id <= s.games.len()
}

pub open spec fn game_of(s: StoreView, id: u64) -> GameView {
    s.games[id - 1]
}

pub open spec fn with_game(s: StoreView, id: u64, g: GameView) -> StoreView {
    StoreView { games: s.games.update(id - 1, g), last_id: s.last_id }
}

/// `CreateGame`: the result and the table after it.
pub open spec fn create_step(
    s: StoreView,
    creator: Seq<char>,
    funds: Seq<CoinView>,
    random: Option<Seq<u8>>,
) -> (Result<u64, ContractError>, StoreView) {
    match stake_of(funds) {
        None => (Err(ContractError::InvalidFunds), s),
        Some(w) => {
            let id = (s.last_id + 1) as u64;
            (Ok(id), StoreView { games: s.games.push(new_game(id, creator, w, random)), last_id: id })
        },
    }
}

/// `JoinGame` on an existing record: `Ok(None)` when nothing changes, else
/// the new record.
pub open spec fn join_outcome(g: GameView, who: Seq<char>, funds: Seq<CoinView>) -> Result<
    Option<GameView>,
    ContractError,
> {
    if holds_seat(g.white, who) || holds_seat(g.black, who) {
        Ok(None)
    } else if g.white is Some && g.black is Some {
        Ok(None)
    } else {
        match stake_of(funds) {
            None => Err(ContractError::InvalidFunds),
            Some(a) => if a != g.wager {
                Err(ContractError::WagerMismatch)
            } else if g.white is Some {
                Ok(Some(GameView { black: Some(who), status: GameStatus::Active, ..g }))
            } else {
                Ok(Some(GameView { white: Some(who), status: GameStatus::Active, ..g }))
            },
        }
    }
}

/// `JoinGame`: the result and the table after it.
pub open spec fn join_step(s: StoreView, who: Seq<char>, funds: Seq<CoinView>, id: u64) -> (
    Result<(), ContractError>,
    StoreView,
) {
    if !has_game(s, id) {
        (Err(ContractError::GameNotFound), s)
    } else {
        match join_outcome(game_of(s, id), who, funds) {
            Err(e) => (Err(e), s),
            Ok(None) => (Ok(()), s),
            Ok(Some(g)) => (Ok(()), with_game(s, id, g)),
        }
    }
}

/// The checks a move passes before the rules engine sees it, in this order:
/// it is the mover's turn if the mover is seated, the mover is seated, and
/// the game is active.
pub open spec fn move_gate(g: GameView, mover: Seq<char>) -> Option<ContractError> {
    if holds_seat(g.white, mover) && g.turn % 2 != 0 {
        Some(ContractError::WrongTurn)
    } else if holds_seat(g.black, mover) && g.turn % 2 == 0 {
        Some(ContractError::WrongTurn)
    } else if !holds_seat(g.white, mover) && !holds_seat(g.black, mover) {
        Some(ContractError::NotAPlayer)
    } else if g.status != GameStatus::Active {
        Some(ContractError::GameNotActive)
    } else {
        None
    }
}

/// The status after an accepted move: a mate is won by the side that just
/// moved, white when the turn count before the move was even.
pub open spec fn status_after(turn: u64, outcome: MoveOutcome) -> GameStatus {
    match outcome {
        MoveOutcome::Ongoing => GameStatus::Active,
        MoveOutcome::Stalemate => GameStatus::Stalemate,
        MoveOutcome::Checkmate => if turn % 2 == 0 {
            GameStatus::WhiteWins
        } else {
            GameStatus::BlackWins
        },
    }
}

/// The record after an accepted move.
pub open spec fn moved(g: GameView, fen: Seq<char>, outcome: MoveOutcome) -> GameView {
    GameView { fen, turn: (g.turn + 1) as u64, status: status_after(g.turn, outcome), ..g }
}

/// A move on one record, given what the rules engine answered: `None` for a
/// rejected move, else the new position and its classification.
pub open spec fn move_outcome(
    g: GameView,
    mover: Seq<char>,
    verdict: Option<(Seq<char>, MoveOutcome)>,
) -> Result<GameView, ContractError> {
    match move_gate(g, mover) {
        Some(e) => Err(e),
        None => match verdict {
            None => Err(ContractError::IllegalMove),
            Some((fen, outcome)) => Ok(moved(g, fen, outcome)),
        },
    }
}

/// A resignation on one record.
pub open spec fn resign_outcome(g: GameView, who: Seq<char>) -> Result<GameView, ContractError> {
    if g.status != GameStatus::Active {
        Err(ContractError::GameNotActive)
    } else if holds_seat(g.white, who) {
        Ok(GameView { status: GameStatus::WhiteResigned, ..g })
    } else if holds_seat(g.black, who) {
        Ok(GameView { status: GameStatus::BlackResigned, ..g })
    } else {
        Err(ContractError::NotAPlayer)
    }
}

/// A new record together with the transfers that settle it.
pub open spec fn settled(r: Result<GameView, ContractError>) -> Result<
    (GameView, Seq<TransferView>),
    ContractError,
> {
    match r {
        Ok(g) => Ok((g, settlement(g))),
        Err(e) => Err(e),
    }
}

pub open spec fn record_result(r: Result<(GameState, Vec<Transfer>), ContractError>) -> Result<
    (GameView, Seq<TransferView>),
    ContractError,
> {
    match r {
        Ok((g, t)) => Ok((g@, transfers_view(t@))),
        Err(e) => Err(e),
    }
}

/// Applies the outcome on one record to the table.
pub open spec fn table_step(s: StoreView, id: u64, r: Result<GameView, ContractError>) -> (
    Result<Seq<TransferView>, ContractError>,
    StoreView,
) {
    if !has_game(s, id) {
        (Err(ContractError::GameNotFound), s)
    } else {
        match r {
            Err(e) => (Err(e), s),
            Ok(g) => (Ok(settlement(g)), with_game(s, id, g)),
        }
    }
}

/// `MakeMove`, given what the rules engine answered: `None` for a rejected
/// move, else the new position and its classification.
pub open spec fn move_step(
    s: StoreView,
    mover: Seq<char>,
    id: u64,
    verdict: Option<(Seq<char>, MoveOutcome)>,
) -> (Result<Seq<TransferView>, ContractError>, StoreView) {
    table_step(s, id, move_outcome(game_of(s, id), mover, verdict))
}

/// `Resign`: the result and the table after it.
pub open spec fn resign_step(s: StoreView, who: Seq<char>, id: u64) -> (
    Result<Seq<TransferView>, ContractError>,
    StoreView,
) {
    table_step(s, id, resign_outcome(game_of(s, id), who))
}

pub open spec fn joined_view(r: Result<Option<GameState>, ContractError>) -> Result<
    Option<GameView>,
    ContractError,
> {
    match r {
        Ok(Some(g)) => Ok(Some(g@)),
        Ok(None) => Ok(None),
        Err(e) => Err(e),
    }
}

pub open spec fn transfers_result(r: Result<Vec<Transfer>, ContractError>) -> Result<
    Seq<TransferView>,
    ContractError,
> {
    match r {
        Ok(v) => Ok(transfers_view(v@)),
        Err(e) => Err(e),
    }
}

pub open spec fn verdict_view(v: Option<(String, MoveOutcome)>) -> Option<(Seq<char>, MoveOutcome)> {
    match v {
        Some((f, o)) => Some((f@, o)),
        None => None,
    }
}

/// A move on game `id` has room to advance its turn counter.
pub open spec fn turn_has_room(s: StoreView, id: u64) -> bool {
    has_game(s, id) ==> game_of(s, id).turn < u64::MAX
}

/// The game table and the id counter.
pub struct GameStore {
    pub games: Vec<GameState>,
    pub last_id: u64,
}

impl View for GameStore {
    type V = StoreView;

    open spec fn view(&self) -> StoreView {
        StoreView { games: self.games@.map_values(|g: GameState| g@), last_id: self.last_id }
    }
}

impl GameStore {
    /// An empty table whose first game will get id 1.
    pub fn new() -> (r: GameStore)
        ensures
            r@.games.len() == 0,
            r@.last_id == 0,
            store_ok(r@),
    {
        GameStore { games: Vec::new(), last_id: 0 }
    }
}

/// Starts an empty game table.
pub fn instantiate() -> (r: GameStore)
    ensures
        r@.games.len() == 0,
        r@.last_id == 0,
        store_ok(r@),
{
    GameStore::new()
}

/// The stake that the attached funds make; see `stake_of`.
pub fn attached_stake(funds: &Vec<Coin>) -> (r: Option<u128>)
    ensures
        r == stake_of(coins_view(funds@)),
{
    if funds.len() < 1 {
        return None;
    }
    if same_text(funds[0].denom.as_str(), DENOM) {
        Some(funds[0].amount)
    } else {
        None
    }
}

/// Replacing one record of the table replaces its view.
proof fn lemma_set_view(old_games: Seq<GameState>, i: int, g: GameState)
    requires
        0 <= i < old_games.len(),
    ensures
        old_games.update(i, g).map_values(|x: GameState| x@) =~= old_games.map_values(
            |x: GameState| x@,
        ).update(i, g@),
{
}

/// Where game `game_id` is stored, if it exists.
fn game_index(store: &GameStore, game_id: u64) -> (r: Option<usize>)
    requires
        store_ok(store@),
    ensures
        r is Some == has_game(store@, game_id),
        r matches Some(i) ==> i == game_id - 1 && i < store.games@.len(),
{
    let n = store.games.len();
    if game_id == 0 || game_id - 1 >= n as u64 {
        None
    } else {
        Some((game_id - 1) as usize)
    }
}

/// Replaces game `game_id`, stored at `idx`, keeping the table's invariant.
fn store_game(store: &mut GameStore, idx: usize, game_id: u64, g: GameState)
    requires
        store_ok(old(store)@),
        has_game(old(store)@, game_id),
        idx == game_id - 1,
        g.id == game_id,
        game_ok(g@),
    ensures
        final(store)@ == with_game(old(store)@, game_id, g@),
        store_ok(final(store)@),
{
    let ghost old_games = store.games@;
    store.games.set(idx, g);
    proof {
        lemma_set_view(old_games, idx as int, g);
    }
}

/// The record of a new game `game_id` staked with the attached funds, with
/// the creator in the seat that the random bytes pick.
pub fn new_record(
    game_id: u64,
    creator: String,
    funds: &Vec<Coin>,
    random: &Option<Vec<u8>>,
) -> (r: Result<GameState, ContractError>)
    ensures
        match stake_of(coins_view(funds@)) {
            None => r == Err::<GameState, ContractError>(ContractError::InvalidFunds),
            Some(w) => r matches Ok(g) && g@ == new_game(game_id, creator@, w, bytes_view(*random)),
        },
{
    let wager = match attached_stake(funds) {
        Some(w) => w,
        None => return Err(ContractError::InvalidFunds),
    };
    let white_first = match random {
        Some(b) => b.len() == 0 || b[0] % 2 == 0,
        None => true,
    };
    let (white, black) = if white_first {
        (Some(creator), None)
    } else {
        (None, Some(creator))
    };
    Ok(
        GameState {
            id: game_id,
            fen: String::from_str(START_FEN),
            white,
            black,
            turn: 0,
            status: GameStatus::Pending,
            wager,
        },
    )
}

/// Opens a new game staked with the attached funds, with the sender in the
/// seat that the random bytes pick, and returns its id.
pub fn create_game(
    store: &mut GameStore,
    sender: String,
    funds: &Vec<Coin>,
    random: &Option<Vec<u8>>,
) -> (r: Result<u64, ContractError>)
    requires
        store_ok(old(store)@),
        old(store).last_id < u64::MAX,
        stake_of(coins_view(funds@)) matches Some(w) ==> w <= MAX_WAGER,
    ensures
        (r, final(store)@) == create_step(
            old(store)@,
            sender@,
            coins_view(funds@),
            bytes_view(*random),
        ),
        store_ok(final(store)@),
{
    let game_id = store.last_id + 1;
    let game = match new_record(game_id, sender, funds, random) {
        Ok(g) => g,
        Err(e) => return Err(e),
    };
    let ghost old_view = store@;
    store.games.push(game);
    store.last_id = game_id;
    proof {
        assert(store@.games =~= old_view.games.push(game@));
    }
    Ok(game_id)
}

/// Seats the sender in the free seat of a game against a stake equal to its
/// wager, which makes the game active; `Ok(None)` when nothing changes, as
/// for a sender who is already seated or a game whose seats are both taken.
pub fn join_record(g: &GameState, sender: String, funds: &Vec<Coin>) -> (r: Result<
    Option<GameState>,
    ContractError,
>)
    ensures
        joined_view(r) == join_outcome(g@, sender@, coins_view(funds@)),
{
    if seat_is(&g.white, &sender) || seat_is(&g.black, &sender) {
        return Ok(None);
    }
    if g.white.is_some() && g.black.is_some() {
        return Ok(None);
    }
    let stake = match attached_stake(funds) {
        Some(a) => a,
        None => return Err(ContractError::InvalidFunds),
    };
    if stake != g.wager {
        return Err(ContractError::WagerMismatch);
    }
    let mut joined = g.duplicate();
    if joined.white.is_some() {
        joined.black = Some(sender);
    } else {
        joined.white = Some(sender);
    }
    joined.status = GameStatus::Active;
    Ok(Some(joined))
}

/// Seats the sender in the free seat of game `game_id`; see `join_record`.
pub fn join_game(store: &mut GameStore, sender: String, game_id: u64, funds: &Vec<Coin>) -> (r:
    Result<(), ContractError>)
    requires
        store_ok(old(store)@),
    ensures
        (r, final(store)@) == join_step(old(store)@, sender@, coins_view(funds@), game_id),
        store_ok(final(store)@),
{
    let idx = match game_index(store, game_id) {
        Some(i) => i,
        None => return Err(ContractError::GameNotFound),
    };
    let g = &store.games[idx];
    assert(g@ == game_of(store@, game_id));
    match join_record(g, sender, funds) {
        Err(e) => Err(e),
        Ok(None) => Ok(()),
        Ok(Some(joined)) => {
            store_game(store, idx, game_id, joined);
            Ok(())
        },
    }
}

/// The checks of `move_gate` on a stored record.
fn check_mover(g: &GameState, mover: &String) -> (r: Option<ContractError>)
    ensures
        r == move_gate(g@, mover@),
{
    let is_white = seat_is(&g.white, mover);
    let is_black = seat_is(&g.black, mover);
    if is_white && g.turn % 2 != 0 {
        Some(ContractError::WrongTurn)
    } else if is_black && g.turn % 2 == 0 {
        Some(ContractError::WrongTurn)
    } else if !is_white && !is_black {
        Some(ContractError::NotAPlayer)
    } else if g.status != GameStatus::Active {
        Some(ContractError::GameNotActive)
    } else {
        None
    }
}

/// Applies a move to one record given the rules engine's verdict on it
/// (`None` when it rejected the move): after the turn and seat checks the
/// new position is taken, the turn counter advances, and the status follows
/// the verdict. Returns the new record and the transfers that settle it.
pub fn move_record(g: &GameState, mover: &String, verdict: Option<(String, MoveOutcome)>) -> (r:
    Result<(GameState, Vec<Transfer>), ContractError>)
    requires
        g.turn < u64::MAX,
        g.wager <= MAX_WAGER,
    ensures
        record_result(r) == settled(move_outcome(g@, mover@, verdict_view(verdict))),
{
    if let Some(e) = check_mover(g, mover) {
        return Err(e);
    }
    match verdict {
        None => Err(ContractError::IllegalMove),
        Some((fen, outcome)) => {
            let mut next = g.duplicate();
            next.fen = fen;
            next.status =
                match outcome {
                    MoveOutcome::Ongoing => GameStatus::Active,
                    MoveOutcome::Stalemate => GameStatus::Stalemate,
                    MoveOutcome::Checkmate => if g.turn % 2 == 0 {
                        GameStatus::WhiteWins
                    } else {
                        GameStatus::BlackWins
                    },
                };
            next.turn = g.turn + 1;
            let transfers = handle_wager(&next);
            Ok((next, transfers))
        },
    }
}

/// Applies a move to game `game_id` given the rules engine's verdict on it;
/// see `move_record`. Returns the transfers that settle the new status.
pub fn apply_move(
    store: &mut GameStore,
    mover: &String,
    game_id: u64,
    verdict: Option<(String, MoveOutcome)>,
) -> (r: Result<Vec<Transfer>, ContractError>)
    requires
        store_ok(old(store)@),
        turn_has_room(old(store)@, game_id),
    ensures
        (transfers_result(r), final(store)@) == move_step(
            old(store)@,
            mover@,
            game_id,
            verdict_view(verdict),
        ),
        store_ok(final(store)@),
{
    let idx = match game_index(store, game_id) {
        Some(i) => i,
        None => return Err(ContractError::GameNotFound),
    };
    let g = &store.games[idx];
    assert(g@ == game_of(store@, game_id));
    match move_record(g, mover, verdict) {
        Err(e) => Err(e),
        Ok((next, transfers)) => {
            store_game(store, idx, game_id, next);
            Ok(transfers)
        },
    }
}

pub open spec fn opt_string(p: Option<String>) -> Option<Seq<char>> {
    match p {
        Some(t) => Some(t@),
        None => None,
    }
}

/// The rules engine's answer to a move on game `id`, from its stored position.
pub open spec fn stored_verdict(
    s: StoreView,
    id: u64,
    from: Seq<char>,
    to: Seq<char>,
    promotion: Option<Seq<char>>,
) -> Option<(Seq<char>, MoveOutcome)> {
    engine_verdict(game_of(s, id).fen, from, to, promotion)
}

/// Plays `move_from`-`move_to` (with an optional promotion letter) for the
/// mover on one record. The mover must be the side to move and the game
/// active; only then is the rules engine asked, and any move it does not
/// accept, unreadable squares included, is an `IllegalMove`.
pub fn play_record(
    g: &GameState,
    mover: &String,
    move_from: &String,
    move_to: &String,
    promotion: &Option<String>,
) -> (r: Result<(GameState, Vec<Transfer>), ContractError>)
    requires
        g.turn < u64::MAX,
        g.wager <= MAX_WAGER,
    ensures
        record_result(r) == settled(
            move_outcome(
                g@,
                mover@,
                engine_verdict(g.fen@, move_from@, move_to@, opt_string(*promotion)),
            ),
        ),
{
    if let Some(e) = check_mover(g, mover) {
        return Err(e);
    }
    let promotion_text = match promotion {
        Some(p) => Some(p.as_str()),
        None => None,
    };
    assert(opt_text(promotion_text) == opt_string(*promotion));
    let verdict = match validate_move(
        g.fen.as_str(),
        move_from.as_str(),
        move_to.as_str(),
        promotion_text,
    ) {
        Ok((fen, outcome)) => Some((fen, outcome)),
        Err(_) => None,
    };
    move_record(g, mover, verdict)
}

/// Plays `move_from`-`move_to` for the sender on game `game_id`; see
/// `play_record`. A refused move changes nothing.
pub fn make_move(
    store: &mut GameStore,
    sender: &String,
    game_id: u64,
    move_from: &String,
    move_to: &String,
    promotion: &Option<String>,
) -> (r: Result<Vec<Transfer>, ContractError>)
    requires
        store_ok(old(store)@),
        turn_has_room(old(store)@, game_id),
    ensures
        (transfers_result(r), final(store)@) == move_step(
            old(store)@,
            sender@,
            game_id,
            stored_verdict(old(store)@, game_id, move_from@, move_to@, opt_string(*promotion)),
        ),
        store_ok(final(store)@),
{
    let idx = match game_index(store, game_id) {
        Some(i) => i,
        None => return Err(ContractError::GameNotFound),
    };
    let g = &store.games[idx];
    assert(g@ == game_of(store@, game_id));
    match play_record(g, sender, move_from, move_to, promotion) {
        Err(e) => Err(e),
        Ok((next, transfers)) => {
            store_game(store, idx, game_id, next);
            Ok(transfers)
        },
    }
}

/// Resigns `who` from an active game: white's resignation pays black and
/// black's pays white. Returns the new record and the transfers that settle
/// it.
pub fn resign_record(g: &GameState, who: &String) -> (r: Result<
    (GameState, Vec<Transfer>),
    ContractError,
>)
    requires
        g.wager <= MAX_WAGER,
    ensures
        record_result(r) == settled(resign_outcome(g@, who@)),
{
    if g.status != GameStatus::Active {
        return Err(ContractError::GameNotActive);
    }
    let status = if seat_is(&g.white, who) {
        GameStatus::WhiteResigned
    } else if seat_is(&g.black, who) {
        GameStatus::BlackResigned
    } else {
        return Err(ContractError::NotAPlayer);
    };
    let mut next = g.duplicate();
    next.status = status;
    let transfers = handle_wager(&next);
    Ok((next, transfers))
}

/// Resigns the sender from active game `game_id`; see `resign_record`.
pub fn resign(store: &mut GameStore, sender: &String, game_id: u64) -> (r: Result<
    Vec<Transfer>,
    ContractError,
>)
    requires
        store_ok(old(store)@),
    ensures
        (transfers_result(r), final(store)@) == resign_step(old(store)@, sender@, game_id),
        store_ok(final(store)@),
{
    let idx = match game_index(store, game_id) {
        Some(i) => i,
        None => return Err(ContractError::GameNotFound),
    };
    let g = &store.games[idx];
    assert(g@ == game_of(store@, game_id));
    match resign_record(g, sender) {
        Err(e) => Err(e),
        Ok((next, transfers)) => {
            store_game(store, idx, game_id, next);
            Ok(transfers)
        },
    }
}

/// The record of game `game_id`.
pub fn get_game_state(store: &GameStore, game_id: u64) -> (r: Result<GameState, ContractError>)
    requires
        store_ok(store@),
    ensures
        has_game(store@, game_id) ==> (r matches Ok(g) && g@ == game_of(store@, game_id)),
        !has_game(store@, game_id) ==> r == Err::<GameState, ContractError>(
            ContractError::GameNotFound,
        ),
{
    match game_index(store, game_id) {
        Some(i) => Ok(store.games[i].duplicate()),
        None => Err(ContractError::GameNotFound),
    }
}

/// Every record, in id order.
pub fn all_games(store: &GameStore) -> (r: Vec<GameState>)
    ensures
        r@.map_values(|g: GameState| g@) == store@.games,
{
    let mut out: Vec<GameState> = Vec::new();
    let n = store.games.len();
    let mut i: usize = 0;
    while i < n
        invariant
            n == store.games@.len(),
            0 <= i <= n,
            out@.len() == i,
            forall|j: int| 0 <= j < i ==> (#[trigger] out@[j])@ == store.games@[j]@,
        decreases n - i,
    {
        out.push(store.games[i].duplicate());
        i = i + 1;
    }
    assert(out@.map_values(|g: GameState| g@) =~= store@.games);
    out
}

/// What a command hands back: the id of a game it opened, and the transfers
/// that settle a game it ended, to be made together with the state change.
#[derive(Clone, Debug, PartialEq)]
pub struct Response {
    pub game_id: Option<u64>,
    pub transfers: Vec<Transfer>,
}

pub open spec fn response_view(r: Result<Response, ContractError>) -> Result<
    (Option<u64>, Seq<TransferView>),
    ContractError,
> {
    match r {
        Ok(resp) => Ok((resp.game_id, transfers_view(resp.transfers@))),
        Err(e) => Err(e),
    }
}

pub open spec fn created_response(r: Result<u64, ContractError>) -> Result<
    (Option<u64>, Seq<TransferView>),
    ContractError,
> {
    match r {
        Ok(id) => Ok((Some(id), Seq::empty())),
        Err(e) => Err(e),
    }
}

pub open spec fn plain_response(r: Result<(), ContractError>) -> Result<
    (Option<u64>, Seq<TransferView>),
    ContractError,
> {
    match r {
        Ok(()) => Ok((None, Seq::empty())),
        Err(e) => Err(e),
    }
}

pub open spec fn settling_response(r: Result<Seq<TransferView>, ContractError>) -> Result<
    (Option<u64>, Seq<TransferView>),
    ContractError,
> {
    match r {
        Ok(t) => Ok((None, t)),
        Err(e) => Err(e),
    }
}

/// What a command needs of the machine: room for one more id, a stake that
/// can be paid out twice over, room for one more move.
pub open spec fn command_fits(
    s: StoreView,
    msg: ExecuteMsg,
    funds: Seq<CoinView>,
) -> bool {
    match msg {
        ExecuteMsg::CreateGame {  } => s.last_id < u64::MAX && (stake_of(funds) matches Some(
            w,
        ) ==> w <= MAX_WAGER),
        ExecuteMsg::MakeMove { game_id, .. } => turn_has_room(s, game_id),
        _ => true,
    }
}

fn no_transfers() -> (r: Vec<Transfer>)
    ensures
        transfers_view(r@) == Seq::<TransferView>::empty(),
{
    let r: Vec<Transfer> = Vec::new();
    assert(transfers_view(r@) =~= Seq::<TransferView>::empty());
    r
}

/// Runs one command sent by `sender` with `funds` attached; `random` is the
/// optional randomness that picks a creator's colour.
pub fn execute(
    store: &mut GameStore,
    sender: String,
    funds: &Vec<Coin>,
    random: &Option<Vec<u8>>,
    msg: ExecuteMsg,
) -> (r: Result<Response, ContractError>)
    requires
        store_ok(old(store)@),
        command_fits(old(store)@, msg, coins_view(funds@)),
    ensures
        store_ok(final(store)@),
        match msg {
            ExecuteMsg::CreateGame {  } => {
                let step = create_step(old(store)@, sender@, coins_view(funds@), bytes_view(*random));
                response_view(r) == created_response(step.0) && final(store)@ == step.1
            },
            ExecuteMsg::JoinGame { game_id } => {
                let step = join_step(old(store)@, sender@, coins_view(funds@), game_id);
                response_view(r) == plain_response(step.0) && final(store)@ == step.1
            },
            ExecuteMsg::MakeMove { game_id, move_from, move_to, promotion } => {
                let step = move_step(
                    old(store)@,
                    sender@,
                    game_id,
                    stored_verdict(old(store)@, game_id, move_from@, move_to@, opt_string(promotion)),
                );
                response_view(r) == settling_response(step.0) && final(store)@ == step.1
            },
            ExecuteMsg::Resign { game_id } => {
                let step = resign_step(old(store)@, sender@, game_id);
                response_view(r) == settling_response(step.0) && final(store)@ == step.1
            },
        },
{
    match msg {
        ExecuteMsg::CreateGame {  } => match create_game(store, sender, funds, random) {
            Ok(id) => Ok(Response { game_id: Some(id), transfers: no_transfers() }),
            Err(e) => Err(e),
        },
        ExecuteMsg::JoinGame { game_id } => match join_game(store, sender, game_id, funds) {
            Ok(()) => Ok(Response { game_id: None, transfers: no_transfers() }),
            Err(e) => Err(e),
        },
        ExecuteMsg::MakeMove { game_id, move_from, move_to, promotion } => {
            match make_move(store, &sender, game_id, &move_from, &move_to, &promotion) {
                Ok(t) => Ok(Response { game_id: None, transfers: t }),
                Err(e) => Err(e),
            }
        },
        ExecuteMsg::Resign { game_id } => match resign(store, &sender, game_id) {
            Ok(t) => Ok(Response { game_id: None, transfers: t }),
            Err(e) => Err(e),
        },
    }
}

/// Answers a read-only request; it changes nothing.
pub fn query(store: &GameStore, msg: QueryMsg) -> (r: Result<QueryAnswer, ContractError>)
    requires
        store_ok(store@),
    ensures
        match msg {
            QueryMsg::GetGame { game_id } => {
                &&& has_game(store@, game_id) ==> (r matches Ok(QueryAnswer::GameState(g)) && g@
                    == game_of(store@, game_id))
                &&& !has_game(store@, game_id) ==> r == Err::<QueryAnswer, ContractError>(
                    ContractError::GameNotFound,
                )
            },
            QueryMsg::ListGames {  } => r matches Ok(QueryAnswer::AllGames(v)) && v@.map_values(
                |g: GameState| g@,
            ) == store@.games,
        },
{
    match msg {
        QueryMsg::GetGame { game_id } => match get_game_state(store, game_id) {
            Ok(g) => Ok(QueryAnswer::GameState(g)),
            Err(e) => Err(e),
        },
        QueryMsg::ListGames {  } => Ok(QueryAnswer::AllGames(all_games(store))),
    }
}

/// Whether one record keeps the invariant of `game_ok`.
pub fn record_ok(g: &GameState) -> (r: bool)
    ensures
        r == game_ok(g@),
{
    if g.wager > MAX_WAGER {
        return false;
    }
    match (&g.white, &g.black) {
        (Some(w), Some(b)) => !same_text(w.as_str(), b.as_str()),
        _ => true,
    }
}

/// Rebuilds a table from its records in id order; `None` when they do not
/// form one (ids not `1, 2, ...`, a stake too large to pay out, or one
/// identity in both seats).
pub fn from_records(games: Vec<GameState>) -> (r: Option<GameStore>)
    ensures
        match r {
            Some(st) => st@.games == games@.map_values(|g: GameState| g@) && store_ok(st@),
            None => !store_ok(
                StoreView {
                    games: games@.map_values(|g: GameState| g@),
                    last_id: games@.len() as u64,
                },
            ),
        },
{
    let n = games.len();
    let ghost v = games@.map_values(|g: GameState| g@);
    let mut i: usize = 0;
    while i < n
        invariant
            n == games@.len(),
            v == games@.map_values(|g: GameState| g@),
            0 <= i <= n,
            forall|j: int| 0 <= j < i ==> (#[trigger] v[j]).id == j + 1 && game_ok(v[j]),
        decreases n - i,
    {
        if games[i].id != i as u64 + 1 || !record_ok(&games[i]) {
            assert(v[i as int] == games@[i as int]@);
            return None;
        }
        i = i + 1;
    }
    Some(GameStore { games, last_id: n as u64 })
}

/// Whether `command_fits` holds, so that `execute` may run the command.
pub fn command_in_bounds(store: &GameStore, msg: &ExecuteMsg, funds: &Vec<Coin>) -> (r: bool)
    requires
        store_ok(store@),
    ensures
        r == command_fits(store@, *msg, coins_view(funds@)),
{
    match msg {
        ExecuteMsg::CreateGame {  } => {
            if store.last_id == u64::MAX {
                return false;
            }
            match attached_stake(funds) {
                Some(w) => w <= MAX_WAGER,
                None => true,
            }
        },
        ExecuteMsg::MakeMove { game_id, .. } => match game_index(store, *game_id) {
            Some(i) => {
                assert(store.games@[i as int]@ == game_of(store@, *game_id));
                store.games[i].turn < u64::MAX
            },
            None => true,
        },
        _ => true,
    }
}

} // verus!
