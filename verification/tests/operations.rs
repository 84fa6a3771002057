use ante_poker::account::AccountId;
use ante_poker::ops::{advance_stage, distribute_pot, initialize_game, join_game, request_shuffle};
use ante_poker::state::{ErrorCode, Escrow, GameAccount, GameStage, LedgerAccount};

fn id(tag: u8) -> AccountId {
    AccountId::new(vec![tag; 32]).unwrap()
}

fn acct(tag: u8, owner: u8, balance: u64) -> LedgerAccount {
    LedgerAccount { id: id(tag), owner: id(owner), balance, frozen: false }
}

fn fresh_table(big_blind: u64, max_players: u8) -> (GameAccount, Escrow) {
    initialize_game(id(1), big_blind, max_players, 255).unwrap()
}

fn to_showdown(game: &mut GameAccount) {
    let auth = id(1);
    request_shuffle(game, &auth, Some(7)).unwrap();
    assert_eq!(game.stage, GameStage::PreFlop);
    advance_stage(game, &auth).unwrap();
    advance_stage(game, &auth).unwrap();
    advance_stage(game, &auth).unwrap();
    advance_stage(game, &auth).unwrap();
    assert_eq!(game.stage, GameStage::Showdown);
}

#[test]
fn initialize_fresh_table() {
    let (game, escrow) = fresh_table(100, 9);
    assert_eq!(game.big_blind, 100);
    assert_eq!(game.small_blind, 50);
    assert_eq!(game.max_players, 9);
    assert_eq!(game.current_players, 0);
    assert_eq!(game.stage, GameStage::Waiting);
    assert_eq!(game.pot, 0);
    assert_eq!(game.bump, 255);
    assert_eq!(escrow.balance, 0);
    assert!(game.seats.is_empty());
    assert!(game.pending_shuffle.is_none());
}

#[test]
fn initialize_halves_odd_big_blind() {
    let (game, _) = fresh_table(101, 2);
    assert_eq!(game.small_blind, 50);
}

#[test]
fn initialize_rejects_bounds() {
    assert_eq!(initialize_game(id(1), 1, 9, 0).unwrap_err(), ErrorCode::InvalidParameters);
    assert_eq!(initialize_game(id(1), 0, 9, 0).unwrap_err(), ErrorCode::InvalidParameters);
    assert_eq!(initialize_game(id(1), 100, 1, 0).unwrap_err(), ErrorCode::InvalidParameters);
    assert_eq!(initialize_game(id(1), 100, 11, 0).unwrap_err(), ErrorCode::InvalidParameters);
    assert!(initialize_game(id(1), 2, 2, 0).is_ok());
    assert!(initialize_game(id(1), 100, 10, 0).is_ok());
}

#[test]
fn happy_path_two_players_single_winner() {
    let (mut game, mut escrow) = fresh_table(100, 9);
    let p1 = id(2);
    let p2 = id(3);
    let mut t1 = acct(12, 2, 5000);
    let mut t2 = acct(13, 3, 5000);

    join_game(&mut game, &mut escrow, &p1, &mut t1, 1000).unwrap();
    assert_eq!(game.pot, 1000);
    assert_eq!(game.current_players, 1);
    assert_eq!(escrow.balance, 1000);
    assert_eq!(t1.balance, 4000);

    join_game(&mut game, &mut escrow, &p2, &mut t2, 1000).unwrap();
    assert_eq!(game.pot, 2000);
    assert_eq!(game.current_players, 2);
    assert_eq!(escrow.balance, 2000);

    to_showdown(&mut game);

    let auth = id(1);
    let payouts = distribute_pot(&mut game, &mut escrow, &auth, &vec![0]).unwrap();
    assert_eq!(payouts.len(), 1);
    assert_eq!(payouts[0].seat, 0);
    assert_eq!(payouts[0].amount, 2000);
    assert_eq!(game.pot, 0);
    assert_eq!(game.stage, GameStage::Waiting);
    assert_eq!(escrow.balance, 0);
}

#[test]
fn split_pot_remainder_to_first_winner() {
    let (mut game, mut escrow) = fresh_table(100, 9);
    let p1 = id(2);
    let p2 = id(3);
    let mut t1 = acct(12, 2, 5000);
    let mut t2 = acct(13, 3, 5000);
    join_game(&mut game, &mut escrow, &p1, &mut t1, 1000).unwrap();
    join_game(&mut game, &mut escrow, &p2, &mut t2, 1001).unwrap();
    assert_eq!(game.pot, 2001);

    to_showdown(&mut game);

    let auth = id(1);
    let payouts = distribute_pot(&mut game, &mut escrow, &auth, &vec![0, 1]).unwrap();
    assert_eq!(payouts.len(), 2);
    assert_eq!(payouts[0].seat, 0);
    assert_eq!(payouts[0].amount, 1001);
    assert_eq!(payouts[1].seat, 1);
    assert_eq!(payouts[1].amount, 1000);
    assert_eq!(payouts[0].amount + payouts[1].amount, 2001);
    assert_eq!(game.pot, 0);
    assert_eq!(escrow.balance, 0);
}

#[test]
fn join_after_full_fails() {
    let (mut game, mut escrow) = fresh_table(100, 2);
    let mut t1 = acct(12, 2, 5000);
    let mut t2 = acct(13, 3, 5000);
    let mut t3 = acct(14, 4, 5000);
    join_game(&mut game, &mut escrow, &id(2), &mut t1, 100).unwrap();
    join_game(&mut game, &mut escrow, &id(3), &mut t2, 100).unwrap();
    assert_eq!(game.current_players, 2);

    let r = join_game(&mut game, &mut escrow, &id(4), &mut t3, 100);
    assert_eq!(r.unwrap_err(), ErrorCode::GameFull);
    assert_eq!(game.current_players, 2);
    assert_eq!(game.pot, 200);
    assert_eq!(escrow.balance, 200);
    assert_eq!(t3.balance, 5000);
}

#[test]
fn join_overflow_guard() {
    let (mut game, mut escrow) = fresh_table(100, 9);
    let big = u64::MAX - 10;
    let mut t1 = acct(12, 2, u64::MAX);
    join_game(&mut game, &mut escrow, &id(2), &mut t1, big).unwrap();
    assert_eq!(game.pot, big);

    let mut t2 = acct(13, 3, 5000);
    let r = join_game(&mut game, &mut escrow, &id(3), &mut t2, 100);
    assert_eq!(r.unwrap_err(), ErrorCode::Overflow);
    assert_eq!(game.pot, big);
    assert_eq!(game.current_players, 1);
    assert_eq!(escrow.balance, big);
    assert_eq!(t2.balance, 5000);
}

#[test]
fn join_rejected_outside_waiting() {
    let (mut game, mut escrow) = fresh_table(100, 9);
    let mut t1 = acct(12, 2, 5000);
    let mut t2 = acct(13, 3, 5000);
    join_game(&mut game, &mut escrow, &id(2), &mut t1, 100).unwrap();
    join_game(&mut game, &mut escrow, &id(3), &mut t2, 100).unwrap();
    request_shuffle(&mut game, &id(1), Some(7)).unwrap();
    assert_eq!(game.stage, GameStage::PreFlop);

    let mut t3 = acct(14, 4, 5000);
    let r = join_game(&mut game, &mut escrow, &id(4), &mut t3, 100);
    assert_eq!(r.unwrap_err(), ErrorCode::WrongStage);
    assert_eq!(game.current_players, 2);
}

#[test]
fn join_ledger_refusals() {
    let (mut game, mut escrow) = fresh_table(100, 9);

    let mut poor = acct(12, 2, 50);
    let r = join_game(&mut game, &mut escrow, &id(2), &mut poor, 100);
    assert_eq!(r.unwrap_err(), ErrorCode::LedgerFailure);

    let mut froz = acct(13, 3, 5000);
    froz.frozen = true;
    let r = join_game(&mut game, &mut escrow, &id(3), &mut froz, 100);
    assert_eq!(r.unwrap_err(), ErrorCode::LedgerFailure);

    let mut other = acct(14, 5, 5000);
    let r = join_game(&mut game, &mut escrow, &id(4), &mut other, 100);
    assert_eq!(r.unwrap_err(), ErrorCode::LedgerFailure);

    assert_eq!(game.current_players, 0);
    assert_eq!(game.pot, 0);
    assert_eq!(escrow.balance, 0);
}

#[test]
fn two_joins_sum_the_pot() {
    let (mut game, mut escrow) = fresh_table(100, 9);
    let mut t1 = acct(12, 2, 5000);
    let mut t2 = acct(13, 3, 5000);
    join_game(&mut game, &mut escrow, &id(2), &mut t1, 700).unwrap();
    join_game(&mut game, &mut escrow, &id(3), &mut t2, 800).unwrap();
    assert_eq!(game.pot, 700 + 800);
    assert_eq!(game.current_players, 2);
    assert_eq!(escrow.balance, game.pot);
}

#[test]
fn shuffle_needs_authority() {
    let (mut game, mut escrow) = fresh_table(100, 9);
    let mut t1 = acct(12, 2, 5000);
    let mut t2 = acct(13, 3, 5000);
    join_game(&mut game, &mut escrow, &id(2), &mut t1, 100).unwrap();
    join_game(&mut game, &mut escrow, &id(3), &mut t2, 100).unwrap();

    let r = request_shuffle(&mut game, &id(9), Some(7));
    assert_eq!(r.unwrap_err(), ErrorCode::Unauthorized);
    assert_eq!(game.stage, GameStage::Waiting);
    assert!(game.pending_shuffle.is_none());
}

#[test]
fn shuffle_needs_two_players() {
    let (mut game, _escrow) = fresh_table(100, 9);
    let r = request_shuffle(&mut game, &id(1), Some(7));
    assert_eq!(r.unwrap_err(), ErrorCode::WrongStage);
    assert_eq!(game.stage, GameStage::Waiting);
}

#[test]
fn shuffle_oracle_failure_leaves_stage() {
    let (mut game, mut escrow) = fresh_table(100, 9);
    let mut t1 = acct(12, 2, 5000);
    let mut t2 = acct(13, 3, 5000);
    join_game(&mut game, &mut escrow, &id(2), &mut t1, 100).unwrap();
    join_game(&mut game, &mut escrow, &id(3), &mut t2, 100).unwrap();

    let r = request_shuffle(&mut game, &id(1), None);
    assert_eq!(r.unwrap_err(), ErrorCode::RandomnessFailure);
    assert_eq!(game.stage, GameStage::Waiting);
    assert!(game.pending_shuffle.is_none());
}

#[test]
fn shuffle_midhand_resamples_in_place() {
    let (mut game, mut escrow) = fresh_table(100, 9);
    let mut t1 = acct(12, 2, 5000);
    let mut t2 = acct(13, 3, 5000);
    join_game(&mut game, &mut escrow, &id(2), &mut t1, 100).unwrap();
    join_game(&mut game, &mut escrow, &id(3), &mut t2, 100).unwrap();
    request_shuffle(&mut game, &id(1), Some(7)).unwrap();
    assert_eq!(game.stage, GameStage::PreFlop);
    assert_eq!(game.pending_shuffle, Some(7));

    request_shuffle(&mut game, &id(1), Some(9)).unwrap();
    assert_eq!(game.stage, GameStage::PreFlop);
    assert_eq!(game.pending_shuffle, Some(9));
}

#[test]
fn shuffle_rejected_at_showdown() {
    let (mut game, mut escrow) = fresh_table(100, 9);
    let mut t1 = acct(12, 2, 5000);
    let mut t2 = acct(13, 3, 5000);
    join_game(&mut game, &mut escrow, &id(2), &mut t1, 100).unwrap();
    join_game(&mut game, &mut escrow, &id(3), &mut t2, 100).unwrap();
    to_showdown(&mut game);

    let r = request_shuffle(&mut game, &id(1), Some(8));
    assert_eq!(r.unwrap_err(), ErrorCode::WrongStage);
    assert_eq!(game.stage, GameStage::Showdown);
}

#[test]
fn advance_walks_the_betting_stages() {
    let (mut game, mut escrow) = fresh_table(100, 9);
    let mut t1 = acct(12, 2, 5000);
    let mut t2 = acct(13, 3, 5000);
    join_game(&mut game, &mut escrow, &id(2), &mut t1, 100).unwrap();
    join_game(&mut game, &mut escrow, &id(3), &mut t2, 100).unwrap();
    request_shuffle(&mut game, &id(1), Some(7)).unwrap();

    let auth = id(1);
    advance_stage(&mut game, &auth).unwrap();
    assert_eq!(game.stage, GameStage::Flop);
    advance_stage(&mut game, &auth).unwrap();
    assert_eq!(game.stage, GameStage::Turn);
    advance_stage(&mut game, &auth).unwrap();
    assert_eq!(game.stage, GameStage::River);
    advance_stage(&mut game, &auth).unwrap();
    assert_eq!(game.stage, GameStage::Showdown);

    let r = advance_stage(&mut game, &auth);
    assert_eq!(r.unwrap_err(), ErrorCode::WrongStage);
}

#[test]
fn advance_rejected_while_waiting_or_unauthorized() {
    let (mut game, _escrow) = fresh_table(100, 9);
    assert_eq!(advance_stage(&mut game, &id(1)).unwrap_err(), ErrorCode::WrongStage);
    assert_eq!(advance_stage(&mut game, &id(9)).unwrap_err(), ErrorCode::Unauthorized);
    assert_eq!(game.stage, GameStage::Waiting);
}

#[test]
fn distribute_needs_authority() {
    let (mut game, mut escrow) = fresh_table(100, 9);
    let mut t1 = acct(12, 2, 5000);
    let mut t2 = acct(13, 3, 5000);
    join_game(&mut game, &mut escrow, &id(2), &mut t1, 1000).unwrap();
    join_game(&mut game, &mut escrow, &id(3), &mut t2, 1000).unwrap();
    to_showdown(&mut game);

    let r = distribute_pot(&mut game, &mut escrow, &id(9), &vec![0]);
    assert_eq!(r.unwrap_err(), ErrorCode::Unauthorized);
    assert_eq!(game.pot, 2000);
    assert_eq!(escrow.balance, 2000);
    assert_eq!(game.stage, GameStage::Showdown);
}

#[test]
fn distribute_rejects_bad_winner_lists() {
    let (mut game, mut escrow) = fresh_table(100, 9);
    let mut t1 = acct(12, 2, 5000);
    let mut t2 = acct(13, 3, 5000);
    join_game(&mut game, &mut escrow, &id(2), &mut t1, 1000).unwrap();
    join_game(&mut game, &mut escrow, &id(3), &mut t2, 1000).unwrap();
    to_showdown(&mut game);

    let auth = id(1);
    let r = distribute_pot(&mut game, &mut escrow, &auth, &vec![]);
    assert_eq!(r.unwrap_err(), ErrorCode::EmptyWinners);
    let r = distribute_pot(&mut game, &mut escrow, &auth, &vec![2]);
    assert_eq!(r.unwrap_err(), ErrorCode::InvalidWinnerIndex);
    let r = distribute_pot(&mut game, &mut escrow, &auth, &vec![0, 5]);
    assert_eq!(r.unwrap_err(), ErrorCode::InvalidWinnerIndex);
    assert_eq!(game.pot, 2000);
    assert_eq!(game.stage, GameStage::Showdown);
}

#[test]
fn distribute_rejected_midhand() {
    let (mut game, mut escrow) = fresh_table(100, 9);
    let mut t1 = acct(12, 2, 5000);
    let mut t2 = acct(13, 3, 5000);
    join_game(&mut game, &mut escrow, &id(2), &mut t1, 1000).unwrap();
    join_game(&mut game, &mut escrow, &id(3), &mut t2, 1000).unwrap();
    request_shuffle(&mut game, &id(1), Some(7)).unwrap();
    assert_eq!(game.stage, GameStage::PreFlop);

    let r = distribute_pot(&mut game, &mut escrow, &id(1), &vec![0]);
    assert_eq!(r.unwrap_err(), ErrorCode::WrongStage);
    assert_eq!(game.pot, 2000);
}

#[test]
fn distribute_empty_pot_moves_nothing() {
    let (mut game, mut escrow) = fresh_table(100, 9);
    let mut t1 = acct(12, 2, 5000);
    let mut t2 = acct(13, 3, 5000);
    join_game(&mut game, &mut escrow, &id(2), &mut t1, 1000).unwrap();
    join_game(&mut game, &mut escrow, &id(3), &mut t2, 1000).unwrap();
    to_showdown(&mut game);
    let auth = id(1);
    distribute_pot(&mut game, &mut escrow, &auth, &vec![0]).unwrap();
    assert_eq!(game.pot, 0);
    assert_eq!(game.stage, GameStage::Waiting);

    let payouts = distribute_pot(&mut game, &mut escrow, &auth, &vec![0, 1]).unwrap();
    assert_eq!(payouts.len(), 2);
    assert_eq!(payouts[0].amount, 0);
    assert_eq!(payouts[1].amount, 0);
    assert_eq!(game.pot, 0);
    assert_eq!(game.stage, GameStage::Waiting);
    assert_eq!(escrow.balance, 0);
}

#[test]
fn seats_remember_who_joined() {
    let (mut game, mut escrow) = fresh_table(100, 9);
    let mut t1 = acct(12, 2, 5000);
    let mut t2 = acct(13, 3, 5000);
    join_game(&mut game, &mut escrow, &id(2), &mut t1, 700).unwrap();
    join_game(&mut game, &mut escrow, &id(3), &mut t2, 800).unwrap();

    assert_eq!(game.seats.len(), 2);
    assert!(game.seats[0].player.same_as(&id(2)));
    assert!(game.seats[0].token_account.same_as(&id(12)));
    assert_eq!(game.seats[0].contributed, 700);
    assert!(game.seats[1].player.same_as(&id(3)));
    assert!(game.seats[1].token_account.same_as(&id(13)));
    assert_eq!(game.seats[1].contributed, 800);
}

#[test]
fn account_id_rejects_wrong_length() {
    assert!(AccountId::new(vec![0; 31]).is_none());
    assert!(AccountId::new(vec![0; 33]).is_none());
    assert!(AccountId::new(vec![0; 32]).is_some());
    assert!(!id(1).same_as(&id(2)));
    assert!(id(5).same_as(&id(5).duplicate()));
}
