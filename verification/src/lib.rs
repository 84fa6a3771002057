//! Escrow and table-state tracking for a multi-player poker table.
//!
//! A table is a persisted [`state::GameAccount`]: the authority that created
//! it, the blinds, seat counts, the current stage of the hand, and the pot.
//! Player funds live in a program-owned [`state::Escrow`]; the external
//! fungible-token ledger and the randomness oracle are collaborators whose
//! accounts and outcomes the operations take as plain values.
//!
//! The five operations in [`ops`] validate their inputs, drive the stage
//! machine, and keep the pot equal to the escrow balance. Each operation
//! either commits all of its state changes or returns a
//! [`state::ErrorCode`] with no mutation. The transition functions in
//! [`machine`] state each operation's outcome mathematically; the proof
//! functions in [`laws`] establish the table-wide invariants (pot/escrow
//! agreement, blind and seat bounds, conservation of tokens across a
//! distribution). [`codec`] gives the fixed 68-byte persisted layout of a
//! record, with a proved round trip, and [`derivation`] the canonical
//! derived addresses of a record and its escrow.

pub mod account;
pub mod derivation;
pub mod state;
pub mod machine;
pub mod ops;
pub mod laws;
pub mod codec;
