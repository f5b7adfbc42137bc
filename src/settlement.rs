use vstd::prelude::*;

use crate::state::{GameState, GameStatus, GameView};
use crate::text::copy_text;

verus! {

/// Largest stake whose doubled amount, the whole escrow of a game, fits in
/// a `u128`.
pub const MAX_WAGER: u128 = 170141183460469231731687303715884105727;

/// An instruction to pay `amount` of the settlement currency to `recipient`.
#[derive(Clone, Debug, PartialEq)]
pub struct Transfer {
    pub recipient: String,
    pub amount: u128,
}

pub struct TransferView {
    pub recipient: Seq<char>,
    pub amount: u128,
}

impl View for Transfer {
    type V = TransferView;

    open spec fn view(&self) -> TransferView {
        TransferView { recipient: self.recipient@, amount: self.amount }
    }
}

pub open spec fn transfers_view(v: Seq<Transfer>) -> Seq<TransferView> {
    v.map_values(|t: Transfer| t@)
}

/// Pays the whole escrow, both stakes, to the holder of `seat`, if it is held.
pub open spec fn pay_winner(seat: Option<Seq<char>>, wager: u128) -> Seq<TransferView> {
    match seat {
        Some(w) => seq![TransferView { recipient: w, amount: (2 * wager) as u128 }],
        None => seq![],
    }
}

/// The transfers that settle a game in its current status: a stalemate
/// gives each player their stake back, a win or the opponent's resignation
/// pays both stakes to the winner, and any other status pays nothing. There
/// is nothing to pay when the stake is zero or a recipient's seat is empty.
pub open spec fn settlement(g: GameView) -> Seq<TransferView> {
    if g.wager == 0 {
        seq![]
    } else {
        match g.status {
            GameStatus::Stalemate => match (g.white, g.black) {
                (Some(w), Some(b)) => seq![
                    TransferView { recipient: w, amount: g.wager },
                    TransferView { recipient: b, amount: g.wager },
                ],
                _ => seq![],
            },
            GameStatus::WhiteWins | GameStatus::BlackResigned => pay_winner(g.white, g.wager),
            GameStatus::BlackWins | GameStatus::WhiteResigned => pay_winner(g.black, g.wager),
            _ => seq![],
        }
    }
}

/// Computes the transfers that settle `game`; see `settlement`.
pub fn handle_wager(game: &GameState) -> (r: Vec<Transfer>)
    requires
        game.wager <= MAX_WAGER,
    ensures
        transfers_view(r@) == settlement(game@),
{
    let mut messages: Vec<Transfer> = Vec::new();
    if game.wager == 0 {
        proof {
            assert(transfers_view(messages@) =~= settlement(game@));
        }
        return messages;
    }
    match game.status {
        GameStatus::Stalemate => {
            match (&game.white, &game.black) {
                (Some(w), Some(b)) => {
                    messages.push(Transfer { recipient: copy_text(w), amount: game.wager });
                    messages.push(Transfer { recipient: copy_text(b), amount: game.wager });
                },
                _ => {},
            }
        },
        GameStatus::WhiteWins | GameStatus::BlackResigned => {
            if let Some(w) = &game.white {
                messages.push(Transfer { recipient: copy_text(w), amount: game.wager * 2 });
            }
        },
        GameStatus::BlackWins | GameStatus::WhiteResigned => {
            if let Some(b) = &game.black {
                messages.push(Transfer { recipient: copy_text(b), amount: game.wager * 2 });
            }
        },
        _ => {},
    }
    proof {
        assert(transfers_view(messages@) =~= settlement(game@));
    }
    messages
}

} // verus!
