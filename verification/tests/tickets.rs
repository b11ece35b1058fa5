use claim::{
    claim, close_round, confirm_withdrawal, finalize_round, init_round, open_round, withdraw,
    ClaimError, ClaimTicket, Round, RoundStatus,
};

fn fresh_ticket() -> ClaimTicket {
    ClaimTicket { round: 0, claimer: 0, claimed: false, withdrawn: false }
}

fn open_window_round() -> Round {
    let mut r = init_round(1, 100, 200, 7);
    open_round(&mut r).unwrap();
    r
}

#[test]
fn claim_registers_ticket_and_counts_claimer() {
    let mut r = open_window_round();
    let mut t = fresh_ticket();
    assert_eq!(claim(&mut r, &mut t, 5, 150), Ok(()));
    assert_eq!(t.round, 1);
    assert_eq!(t.claimer, 5);
    assert!(t.claimed);
    assert!(!t.withdrawn);
    assert_eq!(r.total_claimers, 1);
    assert_eq!(r.status, RoundStatus::Open);
}

#[test]
fn claim_accepts_window_bounds_inclusively() {
    let mut r = open_window_round();
    let mut t = fresh_ticket();
    assert_eq!(claim(&mut r, &mut t, 5, 100), Ok(()));
    let mut t2 = fresh_ticket();
    assert_eq!(claim(&mut r, &mut t2, 6, 200), Ok(()));
    assert_eq!(r.total_claimers, 2);
}

#[test]
fn claim_outside_window_fails_even_while_open() {
    for now in [0, 99, 201, i64::MAX, i64::MIN] {
        let mut r = open_window_round();
        let before_r = r;
        let mut t = fresh_ticket();
        let before_t = t;
        assert_eq!(claim(&mut r, &mut t, 5, now), Err(ClaimError::Window));
        assert_eq!(r, before_r);
        assert_eq!(t, before_t);
    }
}

#[test]
fn claim_on_round_not_open_fails() {
    for status in [RoundStatus::Draft, RoundStatus::Closed, RoundStatus::Finalized] {
        let mut r = init_round(1, 100, 200, 7);
        r.status = status;
        let before_r = r;
        let mut t = fresh_ticket();
        let before_t = t;
        assert_eq!(claim(&mut r, &mut t, 5, 150), Err(ClaimError::NotOpen));
        assert_eq!(r, before_r);
        assert_eq!(t, before_t);
    }
}

#[test]
fn second_claim_of_same_participant_fails_and_counts_once() {
    // Two claim calls from the same participant on the same open round:
    // exactly one succeeds, the other sees AlreadyClaimed, and the counter
    // grows by exactly one. The host serializes the two calls; the second
    // observes the ticket the first registered.
    let mut r = open_window_round();
    let mut t = fresh_ticket();
    assert_eq!(claim(&mut r, &mut t, 5, 150), Ok(()));
    let before_r = r;
    let before_t = t;
    assert_eq!(claim(&mut r, &mut t, 5, 150), Err(ClaimError::AlreadyClaimed));
    assert_eq!(r, before_r);
    assert_eq!(t, before_t);
    assert_eq!(r.total_claimers, 1);
}

#[test]
fn claim_counter_at_numeric_limit_fails_with_math() {
    let mut r = open_window_round();
    r.total_claimers = u64::MAX;
    let before_r = r;
    let mut t = fresh_ticket();
    let before_t = t;
    assert_eq!(claim(&mut r, &mut t, 5, 150), Err(ClaimError::Math));
    assert_eq!(r, before_r);
    assert_eq!(t, before_t);
}

#[test]
fn withdraw_before_finalize_fails() {
    let mut r = open_window_round();
    let mut t = fresh_ticket();
    claim(&mut r, &mut t, 5, 150).unwrap();
    assert_eq!(withdraw(&r, &t), Err(ClaimError::NotFinalized));
    close_round(&mut r).unwrap();
    assert_eq!(withdraw(&r, &t), Err(ClaimError::NotFinalized));
}

#[test]
fn withdraw_with_zero_share_fails_as_not_finalized() {
    let mut r = open_window_round();
    let mut t = fresh_ticket();
    claim(&mut r, &mut t, 5, 150).unwrap();
    close_round(&mut r).unwrap();
    finalize_round(&mut r, 0).unwrap();
    assert_eq!(r.per_share, 0);
    assert_eq!(withdraw(&r, &t), Err(ClaimError::NotFinalized));
}

#[test]
fn withdraw_of_unregistered_ticket_fails_not_claimed() {
    let mut r = open_window_round();
    let mut t = fresh_ticket();
    claim(&mut r, &mut t, 5, 150).unwrap();
    close_round(&mut r).unwrap();
    finalize_round(&mut r, 1000).unwrap();
    let stranger = fresh_ticket();
    assert_eq!(withdraw(&r, &stranger), Err(ClaimError::NotClaimed));
}

#[test]
fn withdraw_authorizes_exactly_per_share_once() {
    let mut r = open_window_round();
    let mut t = fresh_ticket();
    claim(&mut r, &mut t, 5, 150).unwrap();
    close_round(&mut r).unwrap();
    finalize_round(&mut r, 1000).unwrap();
    assert_eq!(withdraw(&r, &t), Ok(1000));
    confirm_withdrawal(&mut t);
    assert!(t.withdrawn);
    assert_eq!(withdraw(&r, &t), Err(ClaimError::AlreadyWithdrawn));
}

#[test]
fn failed_transfer_leaves_ticket_able_to_withdraw() {
    // The ticket flag flips only after the host confirms the transfer; a
    // transfer that failed leaves the ticket authorized to try again.
    let mut r = open_window_round();
    let mut t = fresh_ticket();
    claim(&mut r, &mut t, 5, 150).unwrap();
    close_round(&mut r).unwrap();
    finalize_round(&mut r, 1000).unwrap();
    assert_eq!(withdraw(&r, &t), Ok(1000));
    // the host's transfer fails here: confirm_withdrawal is not called
    assert!(!t.withdrawn);
    assert_eq!(withdraw(&r, &t), Ok(1000));
}

#[test]
fn full_round_distributes_equal_floor_shares() {
    // Window 100..=200; three participants claim at 150; escrow funded to
    // 1000; close, then finalize at the true balance: each registered
    // ticket withdraws exactly 333 and an unregistered fourth is refused.
    let mut r = init_round(9, 100, 200, 7);
    open_round(&mut r).unwrap();
    let mut tickets = [fresh_ticket(), fresh_ticket(), fresh_ticket()];
    for (i, t) in tickets.iter_mut().enumerate() {
        assert_eq!(claim(&mut r, t, 10 + i as u64, 150), Ok(()));
    }
    assert_eq!(r.total_claimers, 3);
    close_round(&mut r).unwrap();
    finalize_round(&mut r, 1000).unwrap();
    assert_eq!(r.per_share, 333);
    assert_eq!(r.total_claimers, 3);
    let mut escrow: u64 = 1000;
    for t in tickets.iter_mut() {
        let amount = withdraw(&r, t).unwrap();
        assert_eq!(amount, 333);
        escrow -= amount;
        confirm_withdrawal(t);
    }
    assert_eq!(escrow, 1); // the dust stays in escrow by design
    let fourth = fresh_ticket();
    assert_eq!(withdraw(&r, &fourth), Err(ClaimError::NotClaimed));
}
