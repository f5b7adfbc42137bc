//! Properties of the game lifecycle that hold over every table, sender and
//! verdict of the rules engine.
use vstd::prelude::*;

use crate::chess::MoveOutcome;
use crate::contract::{
    create_step, game_of, has_game, join_step, move_step, resign_step, store_ok, stored_verdict,
    CoinView, ContractError, StoreView,
};
use crate::settlement::{settlement, TransferView};
use crate::state::{holds_seat, is_terminal, GameStatus, GameView};

verus! {

/// Turn order: a seated player out of turn gets `WrongTurn` and anyone
/// unseated `NotAPlayer`, whatever the game's status and the move. On an
/// active game where the rules engine accepts the move, white's move goes
/// through exactly when the turn count is even and black's exactly when it
/// is odd.
pub proof fn lemma_turn_parity(
    s: StoreView,
    mover: Seq<char>,
    id: u64,
    from: Seq<char>,
    to: Seq<char>,
    promotion: Option<Seq<char>>,
)
    requires
        store_ok(s),
        has_game(s, id),
    ensures
        ({
            let g = game_of(s, id);
            let r = move_step(s, mover, id, stored_verdict(s, id, from, to, promotion)).0;
            &&& holds_seat(g.white, mover) && g.turn % 2 == 1 ==> r == Err::<
                Seq<TransferView>,
                ContractError,
            >(ContractError::WrongTurn)
            &&& holds_seat(g.black, mover) && g.turn % 2 == 0 ==> r == Err::<
                Seq<TransferView>,
                ContractError,
            >(ContractError::WrongTurn)
            &&& !holds_seat(g.white, mover) && !holds_seat(g.black, mover) ==> r == Err::<
                Seq<TransferView>,
                ContractError,
            >(ContractError::NotAPlayer)
            &&& g.status == GameStatus::Active && stored_verdict(s, id, from, to, promotion) is Some
                ==> {
                &&& holds_seat(g.white, mover) ==> (r is Ok <==> g.turn % 2 == 0)
                &&& holds_seat(g.black, mover) ==> (r is Ok <==> g.turn % 2 == 1)
            }
        }),
{
    let i = id - 1;
    assert(s.games[i].id == i + 1);
}

/// Ids only grow and are never reused: a creation hands out an id that no
/// stored game has and stores the new game under it, and the next creation
/// hands out a larger one.
pub proof fn lemma_ids_increase(
    s: StoreView,
    creator1: Seq<char>,
    funds1: Seq<CoinView>,
    random1: Option<Seq<u8>>,
    creator2: Seq<char>,
    funds2: Seq<CoinView>,
    random2: Option<Seq<u8>>,
)
    requires
        store_ok(s),
        s.last_id + 2 <= u64::MAX,
    ensures
        ({
            let (r1, s1) = create_step(s, creator1, funds1, random1);
            let (r2, s2) = create_step(s1, creator2, funds2, random2);
            &&& r1 matches Ok(a) ==> {
                &&& a == s.last_id + 1
                &&& !has_game(s, a)
                &&& forall|i: int| 0 <= i < s.games.len() ==> (#[trigger] s.games[i]).id < a
                &&& has_game(s1, a) && game_of(s1, a).id == a
                &&& s1.last_id == a
            }
            &&& r2 matches Ok(b) ==> {
                &&& !has_game(s1, b)
                &&& forall|i: int| 0 <= i < s1.games.len() ==> (#[trigger] s1.games[i]).id < b
            }
            &&& r1 matches Ok(a) ==> (r2 matches Ok(b) ==> a < b)
        }),
{
    let (r1, s1) = create_step(s, creator1, funds1, random1);
    if r1 is Ok {
        assert forall|i: int| 0 <= i < s1.games.len() implies (#[trigger] s1.games[i]).id
            <= s1.last_id by {
            if i < s.games.len() {
                assert(s1.games[i] == s.games[i]);
            }
        }
    }
}

/// Joining again with an identity whose join went through changes nothing
/// and is not refused, whatever funds come with it.
pub proof fn lemma_join_idempotent(
    s: StoreView,
    who: Seq<char>,
    funds1: Seq<CoinView>,
    funds2: Seq<CoinView>,
    id: u64,
)
    requires
        store_ok(s),
        join_step(s, who, funds1, id).0 is Ok,
    ensures
        ({
            let s1 = join_step(s, who, funds1, id).1;
            join_step(s1, who, funds2, id) == (Ok::<(), ContractError>(()), s1)
        }),
{
}

/// A move that the rules engine rejects is refused: by the player to move
/// on an active game it is an `IllegalMove`. A refused move leaves the table
/// as it was, so the game's position and turn count are those from before
/// the call.
pub proof fn lemma_refused_move_changes_nothing(
    s: StoreView,
    mover: Seq<char>,
    id: u64,
    from: Seq<char>,
    to: Seq<char>,
    promotion: Option<Seq<char>>,
)
    requires
        store_ok(s),
    ensures
        ({
            let step = move_step(s, mover, id, stored_verdict(s, id, from, to, promotion));
            &&& step.0 is Err ==> step.1 == s
            &&& step.0 is Err ==> (has_game(s, id) ==> game_of(step.1, id).fen == game_of(s, id).fen
                && game_of(step.1, id).turn == game_of(s, id).turn)
            &&& stored_verdict(s, id, from, to, promotion) is None ==> step.0 is Err
            &&& has_game(s, id) && game_of(s, id).status == GameStatus::Active
                && stored_verdict(s, id, from, to, promotion) is None && ((holds_seat(
                game_of(s, id).white,
                mover,
            ) && game_of(s, id).turn % 2 == 0) || (holds_seat(game_of(s, id).black, mover)
                && game_of(s, id).turn % 2 == 1)) ==> step.0 == Err::<
                Seq<TransferView>,
                ContractError,
            >(ContractError::IllegalMove)
        }),
{
    if has_game(s, id) {
        let i = id - 1;
        assert(s.games[i].id == i + 1);
    }
}

/// Once a game has ended, every move and every resignation on it is refused
/// and leaves the table, its status included, as it was. A resignation gets
/// `GameNotActive`; a move gets the seat and turn errors first and
/// `GameNotActive` otherwise.
pub proof fn lemma_terminal_is_final(
    s: StoreView,
    sender: Seq<char>,
    id: u64,
    verdict: Option<(Seq<char>, MoveOutcome)>,
)
    requires
        store_ok(s),
        has_game(s, id),
        is_terminal(game_of(s, id).status),
    ensures
        move_step(s, sender, id, verdict).0 is Err,
        move_step(s, sender, id, verdict).1 == s,
        ({
            let g = game_of(s, id);
            (holds_seat(g.white, sender) && g.turn % 2 == 0) || (holds_seat(g.black, sender)
                && g.turn % 2 == 1) ==> move_step(s, sender, id, verdict).0 == Err::<
                Seq<TransferView>,
                ContractError,
            >(ContractError::GameNotActive)
        }),
        resign_step(s, sender, id) == (
            Err::<Seq<TransferView>, ContractError>(ContractError::GameNotActive),
            s,
        ),
{
    let i = id - 1;
    assert(s.games[i].id == i + 1);
}

/// A refused resignation or join leaves the table as it was.
pub proof fn lemma_refusals_change_nothing(
    s: StoreView,
    sender: Seq<char>,
    funds: Seq<CoinView>,
    random: Option<Seq<u8>>,
    id: u64,
)
    ensures
        create_step(s, sender, funds, random).0 is Err ==> create_step(s, sender, funds, random).1
            == s,
        join_step(s, sender, funds, id).0 is Err ==> join_step(s, sender, funds, id).1 == s,
        resign_step(s, sender, id).0 is Err ==> resign_step(s, sender, id).1 == s,
{
}

/// Settlement pays only seated players and never more than the escrow of
/// both stakes: two transfers of one stake each on a stalemate, or one of
/// both stakes to the winner. Games that have not ended pay nothing.
pub proof fn lemma_settlement_within_escrow(g: GameView)
    requires
        g.wager <= crate::settlement::MAX_WAGER,
    ensures
        ({
            let t = settlement(g);
            &&& t.len() <= 2
            &&& forall|i: int|
                0 <= i < t.len() ==> holds_seat(g.white, #[trigger] t[i].recipient) || holds_seat(
                    g.black,
                    t[i].recipient,
                )
            &&& t.len() == 2 ==> t[0].amount == g.wager && t[1].amount == g.wager
                && g.status == GameStatus::Stalemate
            &&& t.len() == 1 ==> t[0].amount == 2 * g.wager && g.status != GameStatus::Stalemate
            &&& !is_terminal(g.status) ==> t.len() == 0
        }),
{
}

} // verus!
