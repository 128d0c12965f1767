use chance::{AccountId, Chance, LotteryError, PayoutInstruction, RegisterOutcome, select_index};

fn acct(id: u64) -> AccountId {
    AccountId { id }
}

#[test]
fn zero_capacity_rejected() {
    let r = Chance::new(0);
    assert_eq!(r.err(), Some(LotteryError::CapacityMisconfigured));
}

#[test]
fn round_of_three_finalizes() {
    let mut c = Chance::new(3).unwrap();
    let a = acct(1);
    let b = acct(2);
    let d = acct(3);
    assert_eq!(
        c.enter(a, 10, 0),
        Ok(RegisterOutcome::Registered { current_count: 1 })
    );
    assert_eq!(
        c.enter(b, 10, 0),
        Ok(RegisterOutcome::Registered { current_count: 2 })
    );
    let third = c.enter(d, 10, 42).unwrap();
    match third {
        RegisterOutcome::RoundFinalized { winner, payout_amount } => {
            assert!(winner == a || winner == b || winner == d);
            assert_eq!(payout_amount, 30);
        }
        RegisterOutcome::Registered { .. } => panic!("third registration must finalize"),
    }
    assert_eq!(c.get_player_count(), 0);
    assert_eq!(c.get_completed_round_count(), 1);
}

#[test]
fn duplicate_entries_weight_selection() {
    // With participants [A, A, B], an entropy value that maps to index 1
    // must select A: entries, not distinct identities, carry the weight.
    let mut c = Chance::new(3).unwrap();
    let a = acct(7);
    let b = acct(8);
    c.enter(a, 1, 0).unwrap();
    c.enter(a, 1, 0).unwrap();
    let r = c.enter(b, 1, 1).unwrap();
    assert_eq!(
        r,
        RegisterOutcome::RoundFinalized { winner: a, payout_amount: 3 }
    );
    assert_eq!(c.get_last_winner(), Some(a));

    // The same list inspected without finalizing, through the pure selector.
    let mut open = Chance::new(4).unwrap();
    open.enter(a, 1, 0).unwrap();
    open.enter(a, 1, 0).unwrap();
    open.enter(b, 1, 0).unwrap();
    assert_eq!(open.choose_winner(1), Ok(a));
    assert_eq!(open.choose_winner(4), Ok(a)); // 4 % 3 == 1 as well
    assert_eq!(open.choose_winner(2), Ok(b));
}

#[test]
fn empty_finalize_rejected_and_state_unchanged() {
    let mut c = Chance::new(5).unwrap();
    assert_eq!(c.start_round(99), Err(LotteryError::EmptyRound));
    assert_eq!(c.get_player_count(), 0);
    assert_eq!(c.get_last_winner(), None);
    assert_eq!(c.get_completed_round_count(), 0);
    // A second attempt fails identically: the failure had no side effects.
    assert_eq!(c.start_round(0), Err(LotteryError::EmptyRound));
    assert_eq!(c.choose_winner(0), Err(LotteryError::EmptyRound));
    assert_eq!(c.get_completed_round_count(), 0);
}

#[test]
fn count_tracks_registrations() {
    let mut c = Chance::new(4).unwrap();
    for i in 0..3u64 {
        let r = c.enter(acct(i), 5, 0).unwrap();
        assert_eq!(
            r,
            RegisterOutcome::Registered { current_count: (i + 1) as u32 }
        );
        assert_eq!(c.get_player_count(), (i + 1) as u32);
        assert_eq!(c.get_completed_round_count(), 0);
    }
    let fourth = c.enter(acct(3), 5, 0).unwrap();
    assert!(matches!(fourth, RegisterOutcome::RoundFinalized { .. }));
    assert_eq!(c.get_player_count(), 0);
    assert_eq!(c.get_completed_round_count(), 1);
}

#[test]
fn fresh_round_after_finalize() {
    let mut c = Chance::new(2).unwrap();
    c.enter(acct(1), 10, 0).unwrap();
    let r = c.enter(acct(2), 10, 0).unwrap();
    assert!(matches!(r, RegisterOutcome::RoundFinalized { .. }));
    assert_eq!(c.get_player_count(), 0);

    // The fresh round accepts exactly `capacity` registrations again.
    assert_eq!(
        c.enter(acct(3), 1, 0),
        Ok(RegisterOutcome::Registered { current_count: 1 })
    );
    let again = c.enter(acct(4), 1, 1).unwrap();
    assert_eq!(
        again,
        RegisterOutcome::RoundFinalized { winner: acct(4), payout_amount: 2 }
    );
    assert_eq!(c.get_completed_round_count(), 2);
}

#[test]
fn manual_finalize_counts_one_round() {
    let mut c = Chance::new(10).unwrap();
    c.enter(acct(5), 3, 0).unwrap();
    let first = c.start_round(0).unwrap();
    assert_eq!(first, PayoutInstruction { recipient: acct(5), amount: 3 });
    assert_eq!(c.get_completed_round_count(), 1);
    c.enter(acct(6), 4, 0).unwrap();
    c.start_round(0).unwrap();
    assert_eq!(c.get_completed_round_count(), 2);
}

#[test]
fn winner_follows_entropy_modulo() {
    let mut c = Chance::new(4).unwrap();
    let a = acct(10);
    let b = acct(11);
    let d = acct(12);
    c.enter(a, 1, 0).unwrap();
    c.enter(b, 1, 0).unwrap();
    c.enter(d, 1, 0).unwrap();
    assert_eq!(c.choose_winner(0), Ok(a));
    assert_eq!(c.choose_winner(1), Ok(b));
    assert_eq!(c.choose_winner(2), Ok(d));
    assert_eq!(c.choose_winner(5), Ok(d)); // 5 % 3 == 2
    assert_eq!(c.choose_winner(7), Ok(b)); // 7 % 3 == 1
    // Deterministic: the same state and entropy always select the same winner.
    assert_eq!(c.choose_winner(7), Ok(b));
}

#[test]
fn pool_accumulates_stakes() {
    let mut c = Chance::new(3).unwrap();
    c.enter(acct(1), 10, 0).unwrap();
    c.enter(acct(2), 20, 0).unwrap();
    let r = c.enter(acct(3), 30, 0).unwrap();
    assert_eq!(
        r,
        RegisterOutcome::RoundFinalized { winner: acct(1), payout_amount: 60 }
    );
    // The pool was reset with the round.
    c.enter(acct(4), 7, 0).unwrap();
    let instruction = c.start_round(0).unwrap();
    assert_eq!(instruction, PayoutInstruction { recipient: acct(4), amount: 7 });
}

#[test]
fn settle_round_payout_failure_leaves_state() {
    let mut c = Chance::new(5).unwrap();
    assert_eq!(c.settle_round(0, true), Err(LotteryError::EmptyRound));
    c.enter(acct(1), 50, 0).unwrap();
    // The environment reports that the transfer could not be honored: the
    // round must stay exactly as it was, nothing cleared, nothing counted.
    assert_eq!(c.settle_round(3, false), Err(LotteryError::PayoutFailed));
    assert_eq!(c.get_player_count(), 1);
    assert_eq!(c.get_last_winner(), None);
    assert_eq!(c.get_completed_round_count(), 0);
    // A confirmed payout commits the very transition that was planned.
    assert_eq!(c.choose_winner(3), Ok(acct(1)));
    let instruction = c.settle_round(3, true).unwrap();
    assert_eq!(instruction, PayoutInstruction { recipient: acct(1), amount: 50 });
    assert_eq!(c.get_player_count(), 0);
    assert_eq!(c.get_last_winner(), Some(acct(1)));
    assert_eq!(c.get_completed_round_count(), 1);
}

#[test]
fn get_players_is_a_snapshot() {
    let mut c = Chance::new(5).unwrap();
    c.enter(acct(1), 1, 0).unwrap();
    c.enter(acct(2), 1, 0).unwrap();
    let mut snapshot = c.get_players();
    assert_eq!(snapshot, vec![acct(1), acct(2)]);
    snapshot.push(acct(99));
    snapshot.clear();
    assert_eq!(c.get_player_count(), 2);
    assert_eq!(c.get_players(), vec![acct(1), acct(2)]);
}

#[test]
fn select_index_is_entropy_modulo_count() {
    assert_eq!(select_index(3, 7), 1);
    assert_eq!(select_index(1, 999), 0);
    assert_eq!(select_index(5, 4), 4);
    assert_eq!(select_index(5, 5), 0);
    assert_eq!(select_index(2, u64::MAX), 1);
}

#[test]
fn capacity_one_finalizes_immediately() {
    let mut c = Chance::new(1).unwrap();
    let r = c.enter(acct(42), 13, 77).unwrap();
    assert_eq!(
        r,
        RegisterOutcome::RoundFinalized { winner: acct(42), payout_amount: 13 }
    );
    assert_eq!(c.get_last_winner(), Some(acct(42)));
    assert_eq!(c.get_completed_round_count(), 1);
}

#[test]
fn fresh_ledger_has_no_history() {
    let c = Chance::new(2).unwrap();
    assert_eq!(c.get_player_count(), 0);
    assert_eq!(c.get_last_winner(), None);
    assert_eq!(c.get_completed_round_count(), 0);
    assert_eq!(c.get_max_players(), 2);
    assert_eq!(c.get_players(), Vec::new());
}
