use ante_poker::account::AccountId;
use ante_poker::codec::{decode_record, encode_record, RECORD_LEN};
use ante_poker::ops::{initialize_game, join_game};
use ante_poker::state::{GameStage, LedgerAccount};

fn id(tag: u8) -> AccountId {
    AccountId::new(vec![tag; 32]).unwrap()
}

#[test]
fn encode_has_documented_layout() {
    let (game, _escrow) = initialize_game(id(7), 300, 9, 254).unwrap();
    let disc: u64 = 0x0102030405060708;
    let bytes = encode_record(disc, &game);
    assert_eq!(bytes.len(), RECORD_LEN);

    let mut expected: Vec<u8> = Vec::new();
    expected.extend_from_slice(&[0x08, 0x07, 0x06, 0x05, 0x04, 0x03, 0x02, 0x01]);
    expected.extend_from_slice(&[7u8; 32]);
    expected.extend_from_slice(&300u64.to_le_bytes());
    expected.extend_from_slice(&150u64.to_le_bytes());
    expected.push(9);
    expected.push(0);
    expected.push(0);
    expected.extend_from_slice(&0u64.to_le_bytes());
    expected.push(254);
    assert_eq!(bytes, expected);
}

#[test]
fn encode_then_decode_round_trips() {
    let (mut game, mut escrow) = initialize_game(id(7), 100, 5, 251).unwrap();
    let mut t1 = LedgerAccount { id: id(12), owner: id(2), balance: 5000, frozen: false };
    join_game(&mut game, &mut escrow, &id(2), &mut t1, 1234).unwrap();

    let bytes = encode_record(42, &game);
    let (disc, back) = decode_record(&bytes).unwrap();
    assert_eq!(disc, 42);
    assert!(back.authority.same_as(&game.authority));
    assert_eq!(back.big_blind, 100);
    assert_eq!(back.small_blind, 50);
    assert_eq!(back.max_players, 5);
    assert_eq!(back.current_players, 1);
    assert_eq!(back.stage, GameStage::Waiting);
    assert_eq!(back.pot, 1234);
    assert_eq!(back.bump, 251);
    assert!(back.seats.is_empty());
    assert!(back.pending_shuffle.is_none());
}

#[test]
fn decode_rejects_wrong_length() {
    assert!(decode_record(&vec![0u8; RECORD_LEN - 1]).is_none());
    assert!(decode_record(&vec![0u8; RECORD_LEN + 1]).is_none());
    assert!(decode_record(&Vec::new()).is_none());
}

#[test]
fn decode_rejects_unknown_stage_byte() {
    let (game, _escrow) = initialize_game(id(7), 100, 5, 0).unwrap();
    let mut bytes = encode_record(0, &game);
    bytes[58] = 6;
    assert!(decode_record(&bytes).is_none());
    bytes[58] = 5;
    let (_, back) = decode_record(&bytes).unwrap();
    assert_eq!(back.stage, GameStage::Showdown);
}
