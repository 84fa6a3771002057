use vstd::prelude::*;
use vstd::bytes::{
    lemma_auto_spec_u64_to_from_le_bytes, spec_u64_to_le_bytes, u64_from_le_bytes, u64_to_le_bytes,
};
use vstd::bytes::spec_u64_from_le_bytes;
use vstd::slice::slice_subrange;
use crate::account::AccountId;
use crate::state::{GameAccount, GameModel, GameStage};

verus! {

/// Size of the persisted record: an 8-byte host discriminator, the 32-byte
/// authority, two 8-byte blinds, three single bytes (seat capacity, seat
/// count, stage), the 8-byte pot, and the derivation nonce.
pub const RECORD_LEN: usize = 68;

/// The persisted encoding of a stage.
pub open spec fn stage_byte(s: GameStage) -> u8 {
    match s {
        GameStage::Waiting => 0,
        GameStage::PreFlop => 1,
        GameStage::Flop => 2,
        GameStage::Turn => 3,
        GameStage::River => 4,
        GameStage::Showdown => 5,
    }
}

/// The stage a persisted byte stands for, if any.
pub open spec fn stage_of_byte(b: u8) -> Option<GameStage> {
    if b == 0 {
        Some(GameStage::Waiting)
    } else if b == 1 {
        Some(GameStage::PreFlop)
    } else if b == 2 {
        Some(GameStage::Flop)
    } else if b == 3 {
        Some(GameStage::Turn)
    } else if b == 4 {
        Some(GameStage::River)
    } else if b == 5 {
        Some(GameStage::Showdown)
    } else {
        None
    }
}

/// Turns a stage into its persisted byte.
pub fn stage_to_byte(s: GameStage) -> (r: u8)
    ensures
        r == stage_byte(s),
{
    match s {
        GameStage::Waiting => 0,
        GameStage::PreFlop => 1,
        GameStage::Flop => 2,
        GameStage::Turn => 3,
        GameStage::River => 4,
        GameStage::Showdown => 5,
    }
}

/// Reads a persisted stage byte back.
pub fn byte_to_stage(b: u8) -> (r: Option<GameStage>)
    ensures
        r == stage_of_byte(b),
{
    if b == 0 {
        Some(GameStage::Waiting)
    } else if b == 1 {
        Some(GameStage::PreFlop)
    } else if b == 2 {
        Some(GameStage::Flop)
    } else if b == 3 {
        Some(GameStage::Turn)
    } else if b == 4 {
        Some(GameStage::River)
    } else if b == 5 {
        Some(GameStage::Showdown)
    } else {
        None
    }
}

/// The 68-byte persisted image of a record, little-endian, fixed width:
/// discriminator, authority, big blind, small blind, seat capacity, seat
/// count, stage, pot, derivation nonce. Seats and the pending shuffle
/// handle live only in memory and are not part of the image.
pub open spec fn record_bytes(disc: u64, g: GameModel) -> Seq<u8> {
    spec_u64_to_le_bytes(disc) + g.authority + spec_u64_to_le_bytes(g.big_blind)
        + spec_u64_to_le_bytes(g.small_blind) + seq![g.max_players] + seq![g.current_players]
        + seq![stage_byte(g.stage)] + spec_u64_to_le_bytes(g.pot) + seq![g.bump]
}

/// What reading a persisted image yields: the discriminator and the record
/// (with no seats and no pending shuffle), or nothing when the image has
/// the wrong size or an unknown stage byte.
pub open spec fn decode_bytes(s: Seq<u8>) -> Option<(u64, GameModel)> {
    if s.len() != RECORD_LEN {
        None
    } else {
        match stage_of_byte(s[58]) {
            None => None,
            Some(st) => Some(
                (
                    spec_u64_from_le_bytes(s.subrange(0, 8)),
                    GameModel {
                        authority: s.subrange(8, 40),
                        big_blind: spec_u64_from_le_bytes(s.subrange(40, 48)),
                        small_blind: spec_u64_from_le_bytes(s.subrange(48, 56)),
                        max_players: s[56],
                        current_players: s[57],
                        stage: st,
                        pot: spec_u64_from_le_bytes(s.subrange(59, 67)),
                        bump: s[67],
                        seats: Seq::empty(),
                        pending_shuffle: None,
                    },
                ),
            ),
        }
    }
}

/// Writes a record's persisted image under the host-chosen discriminator.
pub fn encode_record(disc: u64, game: &GameAccount) -> (r: Vec<u8>)
    requires
        game.authority.wf(),
    ensures
        r@ == record_bytes(disc, game@),
        r@.len() == RECORD_LEN,
{
    proof {
        lemma_auto_spec_u64_to_from_le_bytes();
    }
    let mut out = u64_to_le_bytes(disc);
    let mut i: usize = 0;
    #[verifier::loop_isolation(false)]
    while i < game.authority.bytes.len()
        invariant
            0 <= i <= game.authority.bytes@.len(),
            out@ =~= spec_u64_to_le_bytes(disc) + game.authority.bytes@.subrange(0, i as int),
        decreases game.authority.bytes@.len() - i,
    {
        out.push(game.authority.bytes[i]);
        i += 1;
    }
    let mut big = u64_to_le_bytes(game.big_blind);
    out.append(&mut big);
    let mut small = u64_to_le_bytes(game.small_blind);
    out.append(&mut small);
    out.push(game.max_players);
    out.push(game.current_players);
    out.push(stage_to_byte(game.stage));
    let mut pot = u64_to_le_bytes(game.pot);
    out.append(&mut pot);
    out.push(game.bump);
    proof {
        assert(out@ =~= record_bytes(disc, game@));
    }
    out
}

/// Reads a persisted image back into a record. The image carries no seat
/// table and no pending shuffle handle, so those come back empty.
pub fn decode_record(bytes: &Vec<u8>) -> (r: Option<(u64, GameAccount)>)
    ensures
        match decode_bytes(bytes@) {
            None => r is None,
            Some(p) => r matches Some(q) && q.0 == p.0 && q.1@ == p.1,
        },
{
    if bytes.len() != RECORD_LEN {
        return None;
    }
    let stage = match byte_to_stage(bytes[58]) {
        Some(st) => st,
        None => {
            return None;
        },
    };
    let s = bytes.as_slice();
    let disc = u64_from_le_bytes(slice_subrange(s, 0, 8));
    let mut auth: Vec<u8> = Vec::new();
    let mut i: usize = 0;
    #[verifier::loop_isolation(false)]
    while i < 32
        invariant
            0 <= i <= 32,
            auth@ =~= bytes@.subrange(8, 8 + i as int),
        decreases 32 - i,
    {
        auth.push(bytes[8 + i]);
        i += 1;
    }
    let game = GameAccount {
        authority: AccountId { bytes: auth },
        big_blind: u64_from_le_bytes(slice_subrange(s, 40, 48)),
        small_blind: u64_from_le_bytes(slice_subrange(s, 48, 56)),
        max_players: bytes[56],
        current_players: bytes[57],
        stage,
        pot: u64_from_le_bytes(slice_subrange(s, 59, 67)),
        bump: bytes[67],
        seats: Vec::new(),
        pending_shuffle: None,
    };
    proof {
        assert(game@ =~= decode_bytes(bytes@).unwrap().1);
    }
    Some((disc, game))
}

/// Writing a record and reading the image back yields the discriminator
/// and the record again — less its seat table and pending shuffle handle,
/// which the persisted layout does not carry.
pub proof fn lemma_record_round_trip(disc: u64, g: GameModel)
    requires
        g.authority.len() == 32,
    ensures
        decode_bytes(record_bytes(disc, g)) matches Some(p) && p.0 == disc && p.1 == (GameModel {
            seats: Seq::empty(),
            pending_shuffle: None,
            ..g
        }),
{
    lemma_auto_spec_u64_to_from_le_bytes();
    let s = record_bytes(disc, g);
    assert(s.len() == RECORD_LEN);
    assert(s.subrange(0, 8) =~= spec_u64_to_le_bytes(disc));
    assert(s.subrange(8, 40) =~= g.authority);
    assert(s.subrange(40, 48) =~= spec_u64_to_le_bytes(g.big_blind));
    assert(s.subrange(48, 56) =~= spec_u64_to_le_bytes(g.small_blind));
    assert(s[56] == g.max_players);
    assert(s[57] == g.current_players);
    assert(s[58] == stage_byte(g.stage));
    assert(s.subrange(59, 67) =~= spec_u64_to_le_bytes(g.pot));
    assert(s[67] == g.bump);
    assert(stage_of_byte(stage_byte(g.stage)) == Some(g.stage));
    assert(decode_bytes(s).unwrap().1 =~= GameModel {
        seats: Seq::empty(),
        pending_shuffle: None,
        ..g
    });
}

} // verus!
