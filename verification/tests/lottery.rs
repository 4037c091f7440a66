use lottery::selection::{winner_index, SelectionPolicy};
use lottery::{ExecuteOutcome, LotteryContract, LotteryError};

fn addr(tag: u8) -> [u8; 32] {
    [tag; 32]
}

fn fresh(price: u64, target: u32) -> LotteryContract {
    let mut c = LotteryContract::default();
    c.new(price, target);
    c
}

#[test]
fn entry_adds_participant_and_exact_price() {
    let mut c = fresh(5, 10);
    let r = c.execute(addr(1), 7, 42);
    assert_eq!(r, Ok(ExecuteOutcome::Entered));
    assert_eq!(c.participants, vec![addr(1)]);
    // the pool grows by the ticket price, not by the full sent amount
    assert_eq!(c.total_prize, 5);
}

#[test]
fn insufficient_entry_rejected_unchanged() {
    let mut c = fresh(5, 10);
    c.execute(addr(1), 5, 42).unwrap();
    let participants_before = c.participants.clone();
    let prize_before = c.total_prize;
    let r = c.execute(addr(2), 4, 42);
    assert_eq!(r, Err(LotteryError::InsufficientFunds));
    assert_eq!(c.participants, participants_before);
    assert_eq!(c.total_prize, prize_before);
    assert_eq!(c.ticket_price, 5);
    assert_eq!(c.targeted_participants, 10);
}

#[test]
fn trigger_fires_exactly_at_target() {
    let mut c = fresh(2, 3);
    assert_eq!(c.execute(addr(1), 2, 9), Ok(ExecuteOutcome::Entered));
    assert!(!c.should_conduct_lottery());
    assert_eq!(c.execute(addr(2), 2, 9), Ok(ExecuteOutcome::Entered));
    assert!(!c.should_conduct_lottery());
    // a rejection never triggers the round
    assert!(c.execute(addr(3), 1, 9).is_err());
    assert!(!c.should_conduct_lottery());
    assert_eq!(c.participants.len(), 2);
    // the third admission reaches the target and completes the round
    match c.execute(addr(3), 2, 9) {
        Ok(ExecuteOutcome::RoundComplete { prize, .. }) => assert_eq!(prize, 6),
        other => panic!("expected a completed round, got {:?}", other),
    }
    assert!(c.should_conduct_lottery());
}

#[test]
fn winner_is_a_participant() {
    let mut c = fresh(1, 100);
    for tag in 1..=5u8 {
        c.execute(addr(tag), 1, 0).unwrap();
    }
    for seed in [0u32, 1, 7, 123456789, u32::MAX] {
        let w = c.select_winner(seed).unwrap();
        assert!(c.participants.contains(&w));
    }
}

#[test]
fn sole_participant_always_wins() {
    let mut c = fresh(1, 100);
    c.execute(addr(9), 1, 0).unwrap();
    for seed in [0u32, 3, 999, u32::MAX] {
        assert_eq!(c.select_winner(seed).unwrap(), addr(9));
    }
}

#[test]
fn payout_resets_round_keeps_parameters() {
    let mut c = fresh(4, 2);
    c.execute(addr(1), 4, 5).unwrap();
    let r = c.execute(addr(2), 4, 5).unwrap();
    assert!(matches!(r, ExecuteOutcome::RoundComplete { .. }));
    // the completed round is still held until the payout is confirmed
    assert_eq!(c.participants.len(), 2);
    assert_eq!(c.total_prize, 8);
    c.complete_payout();
    assert!(c.participants.is_empty());
    assert_eq!(c.total_prize, 0);
    assert_eq!(c.ticket_price, 4);
    assert_eq!(c.targeted_participants, 2);
}

#[test]
fn selection_is_deterministic() {
    let mut c = fresh(1, 100);
    for tag in 1..=7u8 {
        c.execute(addr(tag), 1, 0).unwrap();
    }
    for seed in [0u32, 5, 31337] {
        assert_eq!(c.select_winner(seed), c.select_winner(seed));
        assert_eq!(
            winner_index(SelectionPolicy::Shuffle, 7, seed),
            winner_index(SelectionPolicy::Shuffle, 7, seed)
        );
        assert_eq!(
            winner_index(SelectionPolicy::DirectModulo, 7, seed),
            winner_index(SelectionPolicy::DirectModulo, 7, seed)
        );
    }
}

#[test]
fn two_entry_scenario() {
    let mut c = fresh(1, 2);
    let a = addr(0xAA);
    let b = addr(0xBB);
    assert_eq!(c.execute(a, 1, 7), Ok(ExecuteOutcome::Entered));
    assert_eq!(c.participants, vec![a]);
    assert_eq!(c.total_prize, 1);
    match c.execute(b, 1, 7) {
        Ok(ExecuteOutcome::RoundComplete { winner, prize }) => {
            assert_eq!(prize, 2);
            assert!(winner == a || winner == b);
        },
        other => panic!("expected a completed round, got {:?}", other),
    }
    c.complete_payout();
    assert!(c.participants.is_empty());
    assert_eq!(c.total_prize, 0);
}

#[test]
fn underpaying_entry_fails_with_insufficient_funds() {
    let mut c = fresh(5, 10);
    let before = c.participants.clone();
    let r = c.execute(addr(0xCC), 3, 11);
    assert_eq!(r, Err(LotteryError::InsufficientFunds));
    assert_eq!(c.participants, before);
}

#[test]
fn first_invocation_initializes_defaults() {
    let mut c = LotteryContract::default();
    assert!(!c.is_initialized());
    let r = c.execute(addr(1), 1, 3);
    assert_eq!(r, Ok(ExecuteOutcome::Entered));
    assert!(c.is_initialized());
    assert_eq!(c.ticket_price, 1);
    assert_eq!(c.targeted_participants, 10);
    assert_eq!(c.participants, vec![addr(1)]);
    assert_eq!(c.total_prize, 1);
}

#[test]
fn shuffle_range_exact_value() {
    let c = LotteryContract::default();
    // Fisher–Yates over [0, 4] with seed 7:
    // swap(4, 7 % 5 = 2), swap(3, 7 % 4 = 3), swap(2, 7 % 3 = 1), swap(1, 7 % 2 = 1)
    assert_eq!(c.shuffle_range(0, 4, 7), vec![0, 4, 1, 3, 2]);
    // a single-element range is left alone
    assert_eq!(c.shuffle_range(3, 3, 99), vec![3]);
}

#[test]
fn select_random_number_exact_value() {
    let c = LotteryContract::default();
    // position 7 % 5 = 2 of the shuffled range [0, 4, 1, 3, 2]
    assert_eq!(c.select_random_number(0, 4, 7), 1);
}

#[test]
fn direct_modulo_exact_value() {
    assert_eq!(winner_index(SelectionPolicy::DirectModulo, 4, 10), 2);
    assert_eq!(winner_index(SelectionPolicy::DirectModulo, 3, 10), 1);
}

#[test]
fn winner_index_in_range_both_policies() {
    for n in [1usize, 2, 3, 10] {
        for seed in [0u32, 1, 9, 1000, u32::MAX] {
            assert!(winner_index(SelectionPolicy::Shuffle, n, seed) < n);
            assert!(winner_index(SelectionPolicy::DirectModulo, n, seed) < n);
        }
    }
}

#[test]
fn empty_participant_set_error() {
    let c = fresh(1, 10);
    assert_eq!(c.select_winner(5), Err(LotteryError::EmptyParticipantSet));
}

#[test]
fn address_hex_rendering() {
    assert_eq!(
        LotteryContract::address_to_string([0u8; 32]),
        "0000000000000000000000000000000000000000000000000000000000000000"
    );
    let mut a = [0u8; 32];
    a[0] = 0x01;
    a[1] = 0x23;
    a[2] = 0x45;
    a[3] = 0x67;
    a[4] = 0x89;
    a[5] = 0xAB;
    a[6] = 0xCD;
    a[7] = 0xEF;
    assert_eq!(
        LotteryContract::address_to_string(a),
        "0123456789ABCDEF000000000000000000000000000000000000000000000000"
    );
    assert_eq!(
        LotteryContract::address_to_string([0xFFu8; 32]),
        "FFFFFFFFFFFFFFFFFFFFFFFFFFFFFFFFFFFFFFFFFFFFFFFFFFFFFFFFFFFFFFFF"
    );
}

#[test]
fn error_messages() {
    assert_eq!(
        LotteryError::InsufficientFunds.message(),
        "Insufficient funds to purchase a ticket"
    );
    assert_eq!(
        LotteryError::EmptyParticipantSet.message(),
        "No participants to select a winner from"
    );
    assert_eq!(
        LotteryError::TransferFailure.message(),
        "Transferring the prize to the winner failed"
    );
}
