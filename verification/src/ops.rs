use vstd::prelude::*;
use crate::account::AccountId;
use crate::machine::{
    advance_outcome, distribute_outcome, initialize_outcome, join_outcome, payout_amounts,
    shuffle_outcome, Payout,
};
use crate::state::{ErrorCode, Escrow, GameAccount, GameStage, LedgerAccount, Seat};

verus! {

/// Creates a table for `authority` together with its (empty) escrow.
/// `bump` is the derivation nonce of the record's canonical address, found
/// by the host's account machinery and stored for later operations.
///
/// Rejects a big blind under 2 and a seat capacity outside 2..=10 with
/// `InvalidParameters`; otherwise the table starts in `Waiting` with an
/// empty pot, no seats, and `small_blind = big_blind / 2`.
pub fn initialize_game(authority: AccountId, big_blind: u64, max_players: u8, bump: u8) -> (r:
    Result<(GameAccount, Escrow), ErrorCode>)
    requires
        authority.wf(),
    ensures
        match initialize_outcome(authority@, big_blind, max_players, bump) {
            Ok(gm) => r matches Ok(p) && p.0@ == gm && p.1.balance == 0,
            Err(c) => r matches Err(e) && e == c,
        },
{
    if big_blind < 2 || max_players < 2 || max_players > 10 {
        return Err(ErrorCode::InvalidParameters);
    }
    let game = GameAccount {
        authority,
        big_blind,
        small_blind: big_blind / 2,
        max_players,
        current_players: 0,
        stage: GameStage::Waiting,
        pot: 0,
        bump,
        seats: Vec::new(),
        pending_shuffle: None,
    };
    proof {
        assert(game@ =~= initialize_outcome(game.authority@, big_blind, max_players, bump)
            .unwrap());
    }
    Ok((game, Escrow { balance: 0 }))
}

/// Seats `player`, moving `buy_in_amount` tokens from its `source` account
/// into the escrow and growing the pot by the same amount.
///
/// Legal only in `Waiting` with a free seat; the source account must be
/// owned by the signing player, unfrozen, and funded (else the ledger's
/// refusal is surfaced as `LedgerFailure`); a pot that would no longer fit
/// in 64 bits is `Overflow`. On any error nothing is mutated.
pub fn join_game(
    game: &mut GameAccount,
    escrow: &mut Escrow,
    player: &AccountId,
    source: &mut LedgerAccount,
    buy_in_amount: u64,
) -> (r: Result<(), ErrorCode>)
    requires
        old(game)@.wf(),
        old(source)@.wf(),
        player.wf(),
        crate::state::escrow_synced(old(game)@, old(escrow).balance),
        buy_in_amount >= old(game)@.big_blind,
    ensures
        match join_outcome(old(game)@, old(escrow).balance, old(source)@, player@, buy_in_amount) {
            Ok(t) => {
                &&& r is Ok
                &&& final(game)@ == t.0
                &&& final(escrow).balance == t.1
                &&& final(source)@ == t.2
            },
            Err(c) => {
                &&& r matches Err(e) && e == c
                &&& final(game)@ == old(game)@
                &&& final(escrow).balance == old(escrow).balance
                &&& final(source)@ == old(source)@
            },
        },
{
    if !(game.stage == GameStage::Waiting) {
        return Err(ErrorCode::WrongStage);
    }
    if game.current_players >= game.max_players {
        return Err(ErrorCode::GameFull);
    }
    if source.frozen || !player.same_as(&source.owner) || source.balance < buy_in_amount {
        return Err(ErrorCode::LedgerFailure);
    }
    let new_pot = match game.pot.checked_add(buy_in_amount) {
        Some(p) => p,
        None => {
            return Err(ErrorCode::Overflow);
        },
    };
    let seat = Seat {
        player: player.duplicate(),
        token_account: source.id.duplicate(),
        contributed: buy_in_amount,
    };
    game.seats.push(seat);
    game.current_players = game.current_players + 1;
    game.pot = new_pot;
    escrow.balance = escrow.balance + buy_in_amount;
    source.balance = source.balance - buy_in_amount;
    proof {
        let t = join_outcome(
            old(game)@,
            old(escrow).balance,
            old(source)@,
            player@,
            buy_in_amount,
        ).unwrap();
        assert(game@.seats =~= t.0.seats);
        assert(game@ =~= t.0);
        assert(source@ =~= t.2);
    }
    Ok(())
}

/// Records the outcome of a shuffle request. The randomness oracle itself
/// is a collaborator: the caller performs the request and hands in
/// `oracle_handle` — `Some(handle)` on success, `None` when the oracle
/// failed, surfaced as `RandomnessFailure` with the table untouched.
///
/// Only the recorded authority may shuffle; a waiting table needs at least
/// two seated players and enters `PreFlop`, a betting-stage table keeps
/// its stage and merely re-samples; showdown rejects the request.
pub fn request_shuffle(game: &mut GameAccount, signer: &AccountId, oracle_handle: Option<u64>) -> (r:
    Result<(), ErrorCode>)
    requires
        old(game)@.wf(),
    ensures
        match shuffle_outcome(old(game)@, signer@, oracle_handle) {
            Ok(gm) => r is Ok && final(game)@ == gm,
            Err(c) => r matches Err(e) && e == c && final(game)@ == old(game)@,
        },
{
    if !signer.same_as(&game.authority) {
        return Err(ErrorCode::Unauthorized);
    }
    if game.stage == GameStage::Showdown {
        return Err(ErrorCode::WrongStage);
    }
    if game.stage == GameStage::Waiting && game.current_players < 2 {
        return Err(ErrorCode::WrongStage);
    }
    match oracle_handle {
        None => Err(ErrorCode::RandomnessFailure),
        Some(h) => {
            if game.stage == GameStage::Waiting {
                game.stage = GameStage::PreFlop;
            }
            game.pending_shuffle = Some(h);
            proof {
                assert(game@ =~= shuffle_outcome(old(game)@, signer@, oracle_handle).unwrap());
            }
            Ok(())
        },
    }
}

/// Advances a betting stage one step: `PreFlop → Flop → Turn → River →
/// Showdown`. Only the recorded authority may advance; `Waiting` and
/// `Showdown` leave through their own operations, so advancing from them
/// is `WrongStage`.
pub fn advance_stage(game: &mut GameAccount, signer: &AccountId) -> (r: Result<(), ErrorCode>)
    requires
        old(game)@.wf(),
    ensures
        match advance_outcome(old(game)@, signer@) {
            Ok(gm) => r is Ok && final(game)@ == gm,
            Err(c) => r matches Err(e) && e == c && final(game)@ == old(game)@,
        },
{
    if !signer.same_as(&game.authority) {
        return Err(ErrorCode::Unauthorized);
    }
    let next = match game.stage {
        GameStage::PreFlop => GameStage::Flop,
        GameStage::Flop => GameStage::Turn,
        GameStage::Turn => GameStage::River,
        GameStage::River => GameStage::Showdown,
        _ => {
            return Err(ErrorCode::WrongStage);
        },
    };
    game.stage = next;
    proof {
        assert(game@ =~= advance_outcome(old(game)@, signer@).unwrap());
    }
    Ok(())
}

/// Pays the pot out to the listed winners and puts the table back in
/// `Waiting` with an empty pot. Every winner gets `pot / |winners|`; the
/// remainder of the division goes to the first listed winner, so the
/// returned payouts sum to the whole pot. The caller applies each payout
/// to the seat's token account through the ledger under the program's
/// derived authority.
///
/// Only the recorded authority may distribute, only at showdown or while
/// waiting; the winner list must be non-empty and name only occupied
/// seats. On any error nothing is mutated.
pub fn distribute_pot(
    game: &mut GameAccount,
    escrow: &mut Escrow,
    signer: &AccountId,
    winner_indices: &Vec<u8>,
) -> (r: Result<Vec<Payout>, ErrorCode>)
    requires
        old(game)@.wf(),
        crate::state::escrow_synced(old(game)@, old(escrow).balance),
    ensures
        match distribute_outcome(old(game)@, old(escrow).balance, signer@, winner_indices@) {
            Ok(t) => {
                &&& r matches Ok(ps) && ps@ == t.2
                &&& final(game)@ == t.0
                &&& final(escrow).balance == t.1
            },
            Err(c) => {
                &&& r matches Err(e) && e == c
                &&& final(game)@ == old(game)@
                &&& final(escrow).balance == old(escrow).balance
            },
        },
{
    if !signer.same_as(&game.authority) {
        return Err(ErrorCode::Unauthorized);
    }
    if !(game.stage == GameStage::Showdown || game.stage == GameStage::Waiting) {
        return Err(ErrorCode::WrongStage);
    }
    if winner_indices.len() == 0 {
        return Err(ErrorCode::EmptyWinners);
    }
    let mut i: usize = 0;
    #[verifier::loop_isolation(false)]
    while i < winner_indices.len()
        invariant
            0 <= i <= winner_indices@.len(),
            forall|j: int| 0 <= j < i ==> winner_indices@[j] < game@.current_players,
            game == old(game),
            escrow == old(escrow),
        decreases winner_indices@.len() - i,
    {
        if winner_indices[i] >= game.current_players {
            proof {
                let gi = i as int;
                assert(0 <= gi < winner_indices@.len() && winner_indices@[gi] >= old(
                    game,
                )@.current_players);
            }
            return Err(ErrorCode::InvalidWinnerIndex);
        }
        i += 1;
    }
    let n = winner_indices.len() as u64;
    let share = game.pot / n;
    let remainder = game.pot % n;
    proof {
        vstd::arithmetic::div_mod::lemma_fundamental_div_mod(game.pot as int, n as int);
        assert(game.pot as int == (n as int) * ((game.pot as int) / (n as int)) + (
        game.pot as int) % (n as int));
        assert(share as int == (game.pot as int) / (n as int));
        assert(remainder as int == (game.pot as int) % (n as int));
        assert((n as int) * (share as int) >= share as int) by (nonlinear_arith)
            requires
                n >= 1,
                share >= 0,
        ;
        assert(share + remainder <= game.pot);
    }
    let mut payouts: Vec<Payout> = Vec::new();
    let ghost expected = payout_amounts(old(game)@.pot, winner_indices@);
    let mut k: usize = 0;
    #[verifier::loop_isolation(false)]
    while k < winner_indices.len()
        invariant
            0 <= k <= winner_indices@.len(),
            n == winner_indices@.len(),
            n >= 1,
            share == (game.pot as int) / (n as int),
            remainder == (game.pot as int) % (n as int),
            share + remainder <= game.pot,
            expected == payout_amounts(game.pot, winner_indices@),
            game == old(game),
            escrow == old(escrow),
            payouts@.len() == k,
            forall|j: int| 0 <= j < k ==> payouts@[j] == expected[j],
        decreases winner_indices@.len() - k,
    {
        let amount = if k == 0 {
            share + remainder
        } else {
            share
        };
        payouts.push(Payout { seat: winner_indices[k], amount });
        k += 1;
    }
    let total = game.pot;
    game.pot = 0;
    game.stage = GameStage::Waiting;
    escrow.balance = escrow.balance - total;
    proof {
        let t = distribute_outcome(
            old(game)@,
            old(escrow).balance,
            signer@,
            winner_indices@,
        ).unwrap();
        assert(payouts@ =~= t.2);
        assert(game@ =~= t.0);
    }
    Ok(payouts)
}

} // verus!
