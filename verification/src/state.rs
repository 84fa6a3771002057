use vstd::prelude::*;
use crate::account::AccountId;

verus! {

/// Phase of a hand. A table starts (and, between hands, rests) in `Waiting`.
#[derive(Clone, Copy, PartialEq, Eq, Structural, Debug)]
pub enum GameStage {
    Waiting,
    PreFlop,
    Flop,
    Turn,
    River,
    Showdown,
}

/// Every operation either commits all of its state changes or returns one
/// of these with no mutation.
#[derive(Clone, Copy, PartialEq, Eq, Structural, Debug)]
pub enum ErrorCode {
    /// `join_game` when the table already holds `max_players` players.
    GameFull,
    /// Checked arithmetic on the pot failed.
    Overflow,
    /// The operation is not legal in the current stage.
    WrongStage,
    /// Bounds violation on `initialize_game`.
    InvalidParameters,
    /// The signer is not the expected authority.
    Unauthorized,
    /// `distribute_pot` with no winners.
    EmptyWinners,
    /// A winner index at or beyond `current_players`.
    InvalidWinnerIndex,
    /// Propagated from the token ledger (insufficient balance, frozen
    /// account, or wrong owner).
    LedgerFailure,
    /// Propagated from the randomness oracle.
    RandomnessFailure,
}

/// One seated player: the principal that joined, the token account payouts
/// go back to, and the total it has contributed to the escrow.
#[derive(Debug)]
pub struct Seat {
    pub player: AccountId,
    pub token_account: AccountId,
    pub contributed: u64,
}

/// Mathematical model of a [`Seat`].
#[verifier::ext_equal]
pub ghost struct SeatModel {
    pub player: Seq<u8>,
    pub token_account: Seq<u8>,
    pub contributed: u64,
}

impl View for Seat {
    type V = SeatModel;

    open spec fn view(&self) -> SeatModel {
        SeatModel {
            player: self.player@,
            token_account: self.token_account@,
            contributed: self.contributed,
        }
    }
}

impl SeatModel {
    /// Both identifiers are real 32-byte addresses.
    pub open spec fn wf(self) -> bool {
        self.player.len() == 32 && self.token_account.len() == 32
    }
}

/// The persisted table record: one per table, created by its authority.
#[derive(Debug)]
pub struct GameAccount {
    /// The only principal permitted to initialize, request shuffles,
    /// advance the stage, or distribute.
    pub authority: AccountId,
    /// Big blind in tokens; at least 2.
    pub big_blind: u64,
    /// Always `big_blind / 2`, fixed at creation.
    pub small_blind: u64,
    /// Seat capacity; between 2 and 10.
    pub max_players: u8,
    /// Players seated so far; never above `max_players`.
    pub current_players: u8,
    /// Where the hand stands.
    pub stage: GameStage,
    /// Aggregate buy-ins not yet distributed; equals the escrow balance.
    pub pot: u64,
    /// Nonce of the canonical address derivation for this record, stored
    /// so later operations reproduce the address without re-deriving.
    pub bump: u8,
    /// One entry per seated player, in join order.
    pub seats: Vec<Seat>,
    /// Handle of the outstanding randomness request, if any.
    pub pending_shuffle: Option<u64>,
}

/// Mathematical model of a [`GameAccount`].
#[verifier::ext_equal]
pub ghost struct GameModel {
    pub authority: Seq<u8>,
    pub big_blind: u64,
    pub small_blind: u64,
    pub max_players: u8,
    pub current_players: u8,
    pub stage: GameStage,
    pub pot: u64,
    pub bump: u8,
    pub seats: Seq<SeatModel>,
    pub pending_shuffle: Option<u64>,
}

impl View for GameAccount {
    type V = GameModel;

    open spec fn view(&self) -> GameModel {
        GameModel {
            authority: self.authority@,
            big_blind: self.big_blind,
            small_blind: self.small_blind,
            max_players: self.max_players,
            current_players: self.current_players,
            stage: self.stage,
            pot: self.pot,
            bump: self.bump,
            seats: Seq::new(self.seats@.len(), |i: int| self.seats@[i]@),
            pending_shuffle: self.pending_shuffle,
        }
    }
}

impl GameModel {
    /// The record's invariants: the authority is a real address, the small
    /// blind is half the big blind, the seat bounds hold, and the seat list
    /// tracks the player count.
    pub open spec fn wf(self) -> bool {
        &&& self.authority.len() == 32
        &&& self.big_blind >= 2
        &&& self.small_blind == self.big_blind / 2
        &&& 2 <= self.max_players <= 10
        &&& self.current_players <= self.max_players
        &&& self.seats.len() == self.current_players
        &&& forall|i: int| 0 <= i < self.seats.len() ==> (#[trigger] self.seats[i]).wf()
    }
}

/// The program-owned token account holding all deposited funds for one
/// table. Only the program authorizes outflows; at rest its balance equals
/// the table's pot.
#[derive(Debug)]
pub struct Escrow {
    pub balance: u64,
}

/// A fungible-token account of the external ledger, as the table logic
/// reads it: its address, the principal that owns it, its balance, and
/// whether it is frozen.
#[derive(Debug)]
pub struct LedgerAccount {
    pub id: AccountId,
    pub owner: AccountId,
    pub balance: u64,
    pub frozen: bool,
}

/// Mathematical model of a [`LedgerAccount`].
#[verifier::ext_equal]
pub ghost struct LedgerModel {
    pub id: Seq<u8>,
    pub owner: Seq<u8>,
    pub balance: u64,
    pub frozen: bool,
}

impl View for LedgerAccount {
    type V = LedgerModel;

    open spec fn view(&self) -> LedgerModel {
        LedgerModel {
            id: self.id@,
            owner: self.owner@,
            balance: self.balance,
            frozen: self.frozen,
        }
    }
}

impl LedgerModel {
    /// Both identifiers are real 32-byte addresses.
    pub open spec fn wf(self) -> bool {
        self.id.len() == 32 && self.owner.len() == 32
    }
}

/// Invariant tying a table to its escrow: the pot is exactly what the
/// escrow holds.
pub open spec fn escrow_synced(g: GameModel, escrow_balance: u64) -> bool {
    g.pot == escrow_balance
}

} // verus!
