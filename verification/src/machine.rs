use vstd::prelude::*;
use crate::state::{ErrorCode, GameModel, GameStage, LedgerModel, SeatModel};

verus! {

/// `join_game` is legal only between hands.
pub open spec fn join_allowed(s: GameStage) -> bool {
    s == GameStage::Waiting
}

/// `request_shuffle` is accepted while waiting (it deals a new hand) and in
/// any betting stage (it re-samples); it is rejected at showdown.
pub open spec fn shuffle_allowed(s: GameStage) -> bool {
    s != GameStage::Showdown
}

/// `distribute_pot` is accepted at showdown and, between hands, while
/// waiting; it is rejected mid-hand.
pub open spec fn distribute_allowed(s: GameStage) -> bool {
    s == GameStage::Showdown || s == GameStage::Waiting
}

/// The strict advancement table for betting stages. `Waiting` leaves only
/// through `request_shuffle`, and `Showdown` only through `distribute_pot`.
pub open spec fn next_stage(s: GameStage) -> Option<GameStage> {
    match s {
        GameStage::Waiting => None,
        GameStage::PreFlop => Some(GameStage::Flop),
        GameStage::Flop => Some(GameStage::Turn),
        GameStage::Turn => Some(GameStage::River),
        GameStage::River => Some(GameStage::Showdown),
        GameStage::Showdown => None,
    }
}

/// What `initialize_game` produces: a fresh record in `Waiting` with an
/// empty pot and no seats, or `InvalidParameters` when the blinds or the
/// seat capacity are out of bounds.
pub open spec fn initialize_outcome(
    authority: Seq<u8>,
    big_blind: u64,
    max_players: u8,
    bump: u8,
) -> Result<GameModel, ErrorCode> {
    if big_blind < 2 || max_players < 2 || max_players > 10 {
        Err(ErrorCode::InvalidParameters)
    } else {
        Ok(GameModel {
            authority,
            big_blind,
            small_blind: (big_blind / 2) as u64,
            max_players,
            current_players: 0,
            stage: GameStage::Waiting,
            pot: 0,
            bump,
            seats: Seq::empty(),
            pending_shuffle: None,
        })
    }
}

/// What `join_game` produces from a table, its escrow balance, the
/// player's source token account, the signing player, and the buy-in:
/// either the updated triple (a new seat, the pot and escrow grown by the
/// buy-in, the source debited) or the first error the checks hit, in this
/// order: wrong stage, full table, ledger refusal, pot overflow.
pub open spec fn join_outcome(
    g: GameModel,
    escrow_balance: u64,
    source: LedgerModel,
    player: Seq<u8>,
    buy_in: u64,
) -> Result<(GameModel, u64, LedgerModel), ErrorCode> {
    if !join_allowed(g.stage) {
        Err(ErrorCode::WrongStage)
    } else if g.current_players >= g.max_players {
        Err(ErrorCode::GameFull)
    } else if source.frozen || source.owner != player || source.balance < buy_in {
        Err(ErrorCode::LedgerFailure)
    } else if g.pot + buy_in > u64::MAX {
        Err(ErrorCode::Overflow)
    } else {
        Ok((
            GameModel {
                current_players: (g.current_players + 1) as u8,
                pot: (g.pot + buy_in) as u64,
                seats: g.seats.push(SeatModel {
                    player,
                    token_account: source.id,
                    contributed: buy_in,
                }),
                ..g
            },
            (escrow_balance + buy_in) as u64,
            LedgerModel { balance: (source.balance - buy_in) as u64, ..source },
        ))
    }
}

/// What `request_shuffle` produces. The caller performs the oracle request
/// and hands in its outcome: `Some(handle)` on success, `None` when the
/// oracle failed. Checks, in order: the signer must be the authority; the
/// stage must admit a shuffle (from `Waiting` also at least two players,
/// since the shuffle opens the hand); the oracle must have answered. On
/// success a table that was waiting enters `PreFlop`, a betting stage is
/// kept, and the handle is recorded.
pub open spec fn shuffle_outcome(
    g: GameModel,
    signer: Seq<u8>,
    oracle_handle: Option<u64>,
) -> Result<GameModel, ErrorCode> {
    if signer != g.authority {
        Err(ErrorCode::Unauthorized)
    } else if !shuffle_allowed(g.stage) {
        Err(ErrorCode::WrongStage)
    } else if g.stage == GameStage::Waiting && g.current_players < 2 {
        Err(ErrorCode::WrongStage)
    } else if oracle_handle is None {
        Err(ErrorCode::RandomnessFailure)
    } else {
        Ok(GameModel {
            stage: if g.stage == GameStage::Waiting {
                GameStage::PreFlop
            } else {
                g.stage
            },
            pending_shuffle: oracle_handle,
            ..g
        })
    }
}

/// What `advance_stage` produces: the next betting stage under
/// [`next_stage`], or `Unauthorized` / `WrongStage`.
pub open spec fn advance_outcome(g: GameModel, signer: Seq<u8>) -> Result<
    GameModel,
    ErrorCode,
> {
    if signer != g.authority {
        Err(ErrorCode::Unauthorized)
    } else {
        match next_stage(g.stage) {
            Some(s2) => Ok(GameModel { stage: s2, ..g }),
            None => Err(ErrorCode::WrongStage),
        }
    }
}

/// One payout of a distribution: which seat receives and how much.
#[derive(Clone, Copy, PartialEq, Eq, Structural, Debug)]
pub struct Payout {
    pub seat: u8,
    pub amount: u64,
}

/// The payouts of a distribution: every winner gets an equal share of the
/// pot, and the remainder of the division goes to the first listed winner,
/// so that the amounts sum to the whole pot.
pub open spec fn payout_amounts(pot: u64, winners: Seq<u8>) -> Seq<Payout> {
    Seq::new(
        winners.len(),
        |i: int|
            Payout {
                seat: winners[i],
                amount: if i == 0 {
                    ((pot as int) / (winners.len() as int) + (pot as int) % (
                    winners.len() as int)) as u64
                } else {
                    ((pot as int) / (winners.len() as int)) as u64
                },
            },
    )
}

/// Total amount of a payout list.
pub open spec fn sum_amounts(ps: Seq<Payout>) -> int
    decreases ps.len(),
{
    if ps.len() == 0 {
        0
    } else {
        sum_amounts(ps.drop_last()) + ps.last().amount
    }
}

/// What `distribute_pot` produces from a table, its escrow balance, the
/// signer, and the listed winners: the table back in `Waiting` with an
/// empty pot, the escrow debited by the whole pot, and the payout list —
/// or the first error the checks hit, in this order: wrong signer, wrong
/// stage, no winners, a winner index with no seat behind it.
pub open spec fn distribute_outcome(
    g: GameModel,
    escrow_balance: u64,
    signer: Seq<u8>,
    winners: Seq<u8>,
) -> Result<(GameModel, u64, Seq<Payout>), ErrorCode> {
    if signer != g.authority {
        Err(ErrorCode::Unauthorized)
    } else if !distribute_allowed(g.stage) {
        Err(ErrorCode::WrongStage)
    } else if winners.len() == 0 {
        Err(ErrorCode::EmptyWinners)
    } else if exists|i: int| 0 <= i < winners.len() && winners[i] >= g.current_players {
        Err(ErrorCode::InvalidWinnerIndex)
    } else {
        Ok((
            GameModel { pot: 0, stage: GameStage::Waiting, ..g },
            (escrow_balance - g.pot) as u64,
            payout_amounts(g.pot, winners),
        ))
    }
}

} // verus!
