use vstd::prelude::*;
use crate::account::AccountId;

verus! {

/// The canonical program-derived address for a seed tag, a 32-byte body
/// and a program identity: the found address and its bump seed, or (with
/// statistically negligible probability) nothing. The host chain defines
/// it by repeated hashing; it depends on the arguments alone.
pub uninterp spec fn derived_address(tag: Seq<u8>, body: Seq<u8>, program: Seq<u8>) -> Option<
    (Seq<u8>, u8),
>;

/// Relies on Pubkey::try_find_program_address (anchor_lang's re-export of
/// solana-pubkey): for fixed seeds and a fixed program it returns one
/// fixed 32-byte address together with its bump seed — a pure function of
/// its arguments — or `None` in the statistically improbable case that no
/// bump seed works.
#[verifier::external_body]
fn find_derived_address(tag: &Vec<u8>, body: &Vec<u8>, program: &Vec<u8>) -> (r: Option<
    (Vec<u8>, u8),
>)
    requires
        program@.len() == 32,
    ensures
        match derived_address(tag@, body@, program@) {
            Some(p) => r matches Some(q) && q.0@ == p.0 && q.1 == p.1 && q.0@.len() == 32,
            None => r is None,
        },
{
    let program_id = anchor_lang::solana_program::pubkey::Pubkey::new_from_array(
        program.as_slice().try_into().unwrap(),
    );
    anchor_lang::solana_program::pubkey::Pubkey::try_find_program_address(
        &[tag.as_slice(), body.as_slice()],
        &program_id,
    ).map(|(addr, bump)| (addr.to_bytes().to_vec(), bump))
}

/// Seed tag of a table record's address: the bytes of "game".
pub open spec fn game_tag() -> Seq<u8> {
    seq![103u8, 97u8, 109u8, 101u8]
}

/// Seed tag of an escrow's address: the bytes of "escrow".
pub open spec fn escrow_tag() -> Seq<u8> {
    seq![101u8, 115u8, 99u8, 114u8, 111u8, 119u8]
}

fn game_tag_bytes() -> (r: Vec<u8>)
    ensures
        r@ == game_tag(),
{
    let mut v: Vec<u8> = Vec::new();
    v.push(103);
    v.push(97);
    v.push(109);
    v.push(101);
    proof {
        assert(v@ =~= game_tag());
    }
    v
}

fn escrow_tag_bytes() -> (r: Vec<u8>)
    ensures
        r@ == escrow_tag(),
{
    let mut v: Vec<u8> = Vec::new();
    v.push(101);
    v.push(115);
    v.push(99);
    v.push(114);
    v.push(111);
    v.push(119);
    proof {
        assert(v@ =~= escrow_tag());
    }
    v
}

/// The canonical address of the table record an authority creates under a
/// program, with its derivation nonce — the nonce `initialize_game` stores
/// as `bump`.
pub fn table_address(authority: &AccountId, program: &AccountId) -> (r: Option<(AccountId, u8)>)
    requires
        program.wf(),
    ensures
        match derived_address(game_tag(), authority@, program@) {
            Some(p) => r matches Some(q) && q.0@ == p.0 && q.1 == p.1,
            None => r is None,
        },
{
    let tag = game_tag_bytes();
    match find_derived_address(&tag, &authority.bytes, &program.bytes) {
        Some(pair) => Some((AccountId { bytes: pair.0 }, pair.1)),
        None => None,
    }
}

/// The canonical address of the escrow derived from a table record's
/// address under a program, with its derivation nonce.
pub fn escrow_address(table: &AccountId, program: &AccountId) -> (r: Option<(AccountId, u8)>)
    requires
        program.wf(),
    ensures
        match derived_address(escrow_tag(), table@, program@) {
            Some(p) => r matches Some(q) && q.0@ == p.0 && q.1 == p.1,
            None => r is None,
        },
{
    let tag = escrow_tag_bytes();
    match find_derived_address(&tag, &table.bytes, &program.bytes) {
        Some(pair) => Some((AccountId { bytes: pair.0 }, pair.1)),
        None => None,
    }
}

/// The operations' shared preamble check: whether a provided address and
/// nonce are exactly the canonical derivation of this authority's table
/// record under the program.
pub fn table_derivation_matches(
    expected: &AccountId,
    expected_bump: u8,
    authority: &AccountId,
    program: &AccountId,
) -> (r: bool)
    requires
        program.wf(),
    ensures
        r == (derived_address(game_tag(), authority@, program@) matches Some(p) && p.0
            == expected@ && p.1 == expected_bump),
{
    match table_address(authority, program) {
        Some(pair) => expected.same_as(&pair.0) && pair.1 == expected_bump,
        None => false,
    }
}

} // verus!
