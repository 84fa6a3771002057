use vstd::prelude::*;
use vstd::arithmetic::div_mod::{
    lemma_div_basics, lemma_div_pos_is_pos, lemma_fundamental_div_mod,
    lemma_mod_division_less_than_divisor,
};
use crate::machine::{
    advance_outcome, distribute_outcome, initialize_outcome, join_outcome, shuffle_outcome,
    sum_amounts, Payout,
};
use crate::state::{escrow_synced, ErrorCode, GameModel, GameStage, LedgerModel};

verus! {

/// A fresh table is well formed: the small blind is half the big blind,
/// the seat bounds hold, the pot is empty, and the table waits.
pub proof fn lemma_initialize_wf(authority: Seq<u8>, big_blind: u64, max_players: u8, bump: u8)
    requires
        authority.len() == 32,
    ensures
        initialize_outcome(authority, big_blind, max_players, bump) matches Ok(gm) ==> {
            &&& gm.wf()
            &&& gm.pot == 0
            &&& gm.stage == GameStage::Waiting
            &&& gm.current_players == 0
            &&& gm.small_blind == big_blind / 2
        },
{
}

/// A join keeps the table well formed.
pub proof fn lemma_join_preserves_wf(
    g: GameModel,
    escrow_balance: u64,
    source: LedgerModel,
    player: Seq<u8>,
    buy_in: u64,
)
    requires
        g.wf(),
        source.wf(),
        player.len() == 32,
    ensures
        join_outcome(g, escrow_balance, source, player, buy_in) matches Ok(t) ==> t.0.wf(),
{
}

/// The table stays in lockstep with its escrow across a join: both grow by
/// the buy-in, so the pot still equals the escrow balance.
pub proof fn lemma_join_keeps_escrow_synced(
    g: GameModel,
    escrow_balance: u64,
    source: LedgerModel,
    player: Seq<u8>,
    buy_in: u64,
)
    requires
        escrow_synced(g, escrow_balance),
    ensures
        join_outcome(g, escrow_balance, source, player, buy_in) matches Ok(t) ==> escrow_synced(
            t.0,
            t.1,
        ),
{
}

/// A join moves exactly the buy-in: the source account loses it, the
/// escrow gains it, and nothing is created or destroyed.
pub proof fn lemma_join_moves_buy_in(
    g: GameModel,
    escrow_balance: u64,
    source: LedgerModel,
    player: Seq<u8>,
    buy_in: u64,
)
    requires
        escrow_synced(g, escrow_balance),
    ensures
        join_outcome(g, escrow_balance, source, player, buy_in) matches Ok(t) ==> {
            &&& t.0.pot == g.pot + buy_in
            &&& t.1 == escrow_balance + buy_in
            &&& t.2.balance == source.balance - buy_in
            &&& t.2.balance + t.1 == source.balance + escrow_balance
        },
{
}

/// A shuffle request keeps the table well formed, never touches the pot or
/// the seats, records the oracle's handle, and only ever moves a waiting
/// table into `PreFlop` — a betting-stage table keeps its stage.
pub proof fn lemma_shuffle_preserves_wf(g: GameModel, signer: Seq<u8>, oracle_handle: Option<u64>)
    requires
        g.wf(),
    ensures
        shuffle_outcome(g, signer, oracle_handle) matches Ok(gm) ==> {
            &&& gm.wf()
            &&& gm.pot == g.pot
            &&& gm.seats == g.seats
            &&& gm.current_players == g.current_players
            &&& gm.pending_shuffle == oracle_handle
            &&& gm.stage == (if g.stage == GameStage::Waiting {
                GameStage::PreFlop
            } else {
                g.stage
            })
        },
{
}

/// Advancing the stage keeps the table well formed and never touches the
/// pot or the seats.
pub proof fn lemma_advance_preserves_wf(g: GameModel, signer: Seq<u8>)
    requires
        g.wf(),
    ensures
        advance_outcome(g, signer) matches Ok(gm) ==> {
            &&& gm.wf()
            &&& gm.pot == g.pot
            &&& gm.seats == g.seats
        },
{
}

/// After any successful distribution the pot is empty, the table waits for
/// the next hand, it is still well formed, and the escrow was debited by
/// exactly the prior pot — so pot and escrow balance agree again.
pub proof fn lemma_distribute_resets(
    g: GameModel,
    escrow_balance: u64,
    signer: Seq<u8>,
    winners: Seq<u8>,
)
    requires
        g.wf(),
        escrow_synced(g, escrow_balance),
    ensures
        distribute_outcome(g, escrow_balance, signer, winners) matches Ok(t) ==> {
            &&& t.0.pot == 0
            &&& t.0.stage == GameStage::Waiting
            &&& t.0.wf()
            &&& t.1 == 0
            &&& escrow_synced(t.0, t.1)
        },
{
}

/// Total of a payout list whose first entry holds `share + rem` and whose
/// other entries hold `share` each.
proof fn lemma_sum_uniform_with_head(ps: Seq<Payout>, share: int, rem: int)
    requires
        ps.len() >= 1,
        ps[0].amount == share + rem,
        forall|i: int| 1 <= i < ps.len() ==> (#[trigger] ps[i]).amount == share,
    ensures
        sum_amounts(ps) == share * ps.len() + rem,
    decreases ps.len(),
{
    if ps.len() == 1 {
        assert(sum_amounts(ps.drop_last()) == 0);
        assert(share * ps.len() == share) by (nonlinear_arith)
            requires
                ps.len() == 1,
        ;
    } else {
        let q = ps.drop_last();
        assert(q[0] == ps[0]);
        lemma_sum_uniform_with_head(q, share, rem);
        assert(ps.last().amount == share);
        assert(share * ps.len() == share * q.len() + share) by (nonlinear_arith)
            requires
                ps.len() == q.len() + 1,
        ;
    }
}

/// The exact shape of a distribution's payouts: one entry per listed
/// winner, in order; every entry carries an equal share of the pot; the
/// remainder of the division goes on top of the first entry; and the
/// amounts sum to exactly the prior pot — no tokens are created or
/// destroyed.
pub proof fn lemma_distribute_conserves_pot(
    g: GameModel,
    escrow_balance: u64,
    signer: Seq<u8>,
    winners: Seq<u8>,
)
    ensures
        distribute_outcome(g, escrow_balance, signer, winners) matches Ok(t) ==> {
            let n = winners.len() as int;
            let share = (g.pot as int) / n;
            let rem = (g.pot as int) % n;
            &&& t.2.len() == winners.len()
            &&& forall|i: int| 0 <= i < t.2.len() ==> (#[trigger] t.2[i]).seat == winners[i]
            &&& t.2[0].amount == share + rem
            &&& forall|i: int| 1 <= i < t.2.len() ==> (#[trigger] t.2[i]).amount == share
            &&& sum_amounts(t.2) == g.pot
        },
{
    if distribute_outcome(g, escrow_balance, signer, winners) is Ok {
        let n = winners.len() as int;
        let share = (g.pot as int) / n;
        let rem = (g.pot as int) % n;
        let ps = distribute_outcome(g, escrow_balance, signer, winners)->Ok_0.2;
        lemma_fundamental_div_mod(g.pot as int, n);
        lemma_mod_division_less_than_divisor(g.pot as int, n);
        lemma_div_pos_is_pos(g.pot as int, n);
        assert(share * n >= share) by (nonlinear_arith)
            requires
                n >= 1,
                share >= 0,
        ;
        assert(share + rem <= g.pot);
        assert(ps[0].amount == share + rem);
        assert(forall|i: int| 1 <= i < ps.len() ==> (#[trigger] ps[i]).amount == share);
        lemma_sum_uniform_with_head(ps, share, rem);
        assert(sum_amounts(ps) == share * n + rem);
    }
}

/// A single listed winner takes the whole pot.
pub proof fn lemma_single_winner_takes_pot(
    g: GameModel,
    escrow_balance: u64,
    signer: Seq<u8>,
    winners: Seq<u8>,
)
    requires
        winners.len() == 1,
    ensures
        distribute_outcome(g, escrow_balance, signer, winners) matches Ok(t) ==> {
            &&& t.2.len() == 1
            &&& t.2[0].seat == winners[0]
            &&& t.2[0].amount == g.pot
        },
{
    if distribute_outcome(g, escrow_balance, signer, winners) is Ok {
        lemma_div_basics(g.pot as int);
        lemma_fundamental_div_mod(g.pot as int, 1);
        lemma_mod_division_less_than_divisor(g.pot as int, 1);
        lemma_distribute_conserves_pot(g, escrow_balance, signer, winners);
    }
}

/// Distributing an empty pot moves no tokens: every payout is zero, the
/// escrow stays empty, and the table is (still) waiting. A freshly
/// initialized table has an empty pot, so following `initialize_game`
/// with a distribution leaves all balances alone.
pub proof fn lemma_distribute_empty_pot_is_noop(
    g: GameModel,
    escrow_balance: u64,
    signer: Seq<u8>,
    winners: Seq<u8>,
)
    requires
        g.pot == 0,
        escrow_synced(g, escrow_balance),
    ensures
        distribute_outcome(g, escrow_balance, signer, winners) matches Ok(t) ==> {
            &&& forall|i: int| 0 <= i < t.2.len() ==> (#[trigger] t.2[i]).amount == 0
            &&& t.1 == 0
            &&& t.0.pot == 0
            &&& t.0.stage == GameStage::Waiting
        },
{
    if distribute_outcome(g, escrow_balance, signer, winners) is Ok {
        let n = winners.len() as int;
        lemma_div_basics(n);
        lemma_mod_division_less_than_divisor(0, n);
        lemma_fundamental_div_mod(0, n);
        lemma_distribute_conserves_pot(g, escrow_balance, signer, winners);
    }
}

/// Two sequential joins of amounts `a` and `b` grow the pot by `a + b`,
/// seat two more players, and grow the escrow by the same `a + b`.
pub proof fn lemma_sequential_joins(
    g: GameModel,
    escrow_balance: u64,
    source1: LedgerModel,
    player1: Seq<u8>,
    a: u64,
    mid_g: GameModel,
    mid_escrow: u64,
    mid_source: LedgerModel,
    source2: LedgerModel,
    player2: Seq<u8>,
    b: u64,
    end_g: GameModel,
    end_escrow: u64,
    end_source: LedgerModel,
)
    requires
        escrow_synced(g, escrow_balance),
        join_outcome(g, escrow_balance, source1, player1, a) == Ok::<
            (GameModel, u64, LedgerModel),
            ErrorCode,
        >((mid_g, mid_escrow, mid_source)),
        join_outcome(mid_g, mid_escrow, source2, player2, b) == Ok::<
            (GameModel, u64, LedgerModel),
            ErrorCode,
        >((end_g, end_escrow, end_source)),
    ensures
        end_g.pot == g.pot + a + b,
        end_g.current_players == g.current_players + 2,
        end_escrow == escrow_balance + a + b,
{
}

/// A join onto the last free seat succeeds, and any join after it — by
/// whatever player, account, or amount — fails with `GameFull`.
pub proof fn lemma_join_fills_last_seat(
    g: GameModel,
    escrow_balance: u64,
    source: LedgerModel,
    player: Seq<u8>,
    buy_in: u64,
    source2: LedgerModel,
    player2: Seq<u8>,
    buy_in2: u64,
)
    requires
        g.stage == GameStage::Waiting,
        g.current_players + 1 == g.max_players,
        !source.frozen,
        source.owner == player,
        source.balance >= buy_in,
        g.pot + buy_in <= u64::MAX,
    ensures
        join_outcome(g, escrow_balance, source, player, buy_in) is Ok,
        join_outcome(g, escrow_balance, source, player, buy_in) matches Ok(t) ==> (join_outcome(
            t.0,
            t.1,
            source2,
            player2,
            buy_in2,
        ) matches Err(e) && e == ErrorCode::GameFull),
{
}

/// A buy-in that would push the pot past what 64 bits hold is rejected
/// with `Overflow` — even though the seat was free and the ledger would
/// have honoured the transfer.
pub proof fn lemma_join_overflow_guard(
    g: GameModel,
    escrow_balance: u64,
    source: LedgerModel,
    player: Seq<u8>,
    buy_in: u64,
)
    requires
        g.stage == GameStage::Waiting,
        g.current_players < g.max_players,
        !source.frozen,
        source.owner == player,
        source.balance >= buy_in,
        g.pot + buy_in > u64::MAX,
    ensures
        join_outcome(g, escrow_balance, source, player, buy_in) matches Err(e) && e
            == ErrorCode::Overflow,
{
}

/// Only the recorded authority can shuffle, advance, or distribute: any
/// other signer is turned away with `Unauthorized` before anything else is
/// looked at.
pub proof fn lemma_only_authority_commands(
    g: GameModel,
    escrow_balance: u64,
    signer: Seq<u8>,
    winners: Seq<u8>,
    oracle_handle: Option<u64>,
)
    requires
        signer != g.authority,
    ensures
        shuffle_outcome(g, signer, oracle_handle) matches Err(e) && e == ErrorCode::Unauthorized,
        advance_outcome(g, signer) matches Err(e) && e == ErrorCode::Unauthorized,
        distribute_outcome(g, escrow_balance, signer, winners) matches Err(e) && e
            == ErrorCode::Unauthorized,
{
}

/// A join is honoured only under the joining player's own signature: a
/// source token account owned by someone else is refused by the ledger,
/// and the refusal is surfaced with the table untouched.
pub proof fn lemma_join_needs_own_account(
    g: GameModel,
    escrow_balance: u64,
    source: LedgerModel,
    player: Seq<u8>,
    buy_in: u64,
)
    requires
        g.stage == GameStage::Waiting,
        g.current_players < g.max_players,
        source.owner != player,
    ensures
        join_outcome(g, escrow_balance, source, player, buy_in) matches Err(e) && e
            == ErrorCode::LedgerFailure,
{
}

} // verus!
