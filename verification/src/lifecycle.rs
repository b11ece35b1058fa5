//! The round lifecycle engine: creation and the state machine
//! `Draft -> Open -> Closed -> Finalized`.
//!
//! Each operation is given first as a spec-level transition function — the
//! mathematical statement of what the operation does to a round — and then
//! as the executable function, whose contract says it computes exactly
//! that transition. A rejected transition returns the round unchanged.

use vstd::prelude::*;

use crate::state::{ClaimError, Round, RoundStatus};

verus! {

/// The round produced by `init_round`: a fresh draft with zeroed counters.
pub open spec fn spec_init(id: u64, opens_at: i64, closes_at: i64, pool_mint: u64) -> Round {
    Round {
        id,
        opens_at,
        closes_at,
        pool_mint,
        pool_amount: 0,
        total_claimers: 0,
        per_share: 0,
        status: RoundStatus::Draft,
    }
}

/// What `open_round` does: `Draft` moves to `Open`; any other state is
/// rejected with `BadStatus` and left unchanged.
pub open spec fn spec_open(r: Round) -> (Round, Result<(), ClaimError>) {
    if r.status is Draft {
        (Round { status: RoundStatus::Open, ..r }, Ok(()))
    } else {
        (r, Err(ClaimError::BadStatus))
    }
}

/// What `close_round` does: `Open` moves to `Closed`; any other state is
/// rejected with `BadStatus` and left unchanged. Closing is an
/// administrative action: the time window is deliberately not consulted.
pub open spec fn spec_close(r: Round) -> (Round, Result<(), ClaimError>) {
    if r.status is Open {
        (Round { status: RoundStatus::Closed, ..r }, Ok(()))
    } else {
        (r, Err(ClaimError::BadStatus))
    }
}

/// What `finalize_round` does: a `Closed` round with at least one claimer
/// freezes `pool_amount` at the escrow balance read at call time, computes
/// the floor-divided equal share, and moves to `Finalized`. A round not in
/// `Closed` is rejected with `BadStatus`; one with zero claimers with
/// `NoClaimers` (which also rules out division by zero).
pub open spec fn spec_finalize(r: Round, escrow_balance: u64) -> (Round, Result<(), ClaimError>) {
    if !(r.status is Closed) {
        (r, Err(ClaimError::BadStatus))
    } else if r.total_claimers == 0 {
        (r, Err(ClaimError::NoClaimers))
    } else {
        (
            Round {
                pool_amount: escrow_balance,
                per_share: (escrow_balance / r.total_claimers) as u64,
                status: RoundStatus::Finalized,
                ..r
            },
            Ok(()),
        )
    }
}

/// Creates a round in `Draft` with zeroed counters. The window bounds are
/// administrator-trusted: `opens_at <= closes_at` is deliberately not
/// validated here, matching the protocol's loose trust model. Duplicate
/// ids are the host storage layer's concern.
pub fn init_round(id: u64, opens_at: i64, closes_at: i64, pool_mint: u64) -> (r: Round)
    ensures
        r == spec_init(id, opens_at, closes_at, pool_mint),
{
    Round {
        id,
        opens_at,
        closes_at,
        pool_mint,
        pool_amount: 0,
        total_claimers: 0,
        per_share: 0,
        status: RoundStatus::Draft,
    }
}

/// Deposits are visible on the external funding ledger only; the protocol
/// deliberately records nothing per deposit and reads the balance once, at
/// finalize. So this operation always succeeds and changes nothing.
pub fn record_funding(round: &mut Round) -> (res: Result<(), ClaimError>)
    ensures
        *final(round) == *old(round),
        res is Ok,
{
    Ok(())
}

/// Moves a `Draft` round to `Open`. Succeeds exactly when the round is in
/// `Draft`; otherwise rejects with `BadStatus` and changes nothing.
pub fn open_round(round: &mut Round) -> (res: Result<(), ClaimError>)
    ensures
        (*final(round), res) == spec_open(*old(round)),
        res is Ok <==> old(round).status is Draft,
{
    if matches!(round.status, RoundStatus::Draft) {
        round.status = RoundStatus::Open;
        Ok(())
    } else {
        Err(ClaimError::BadStatus)
    }
}

/// Moves an `Open` round to `Closed`. Succeeds exactly when the round is
/// in `Open`; otherwise rejects with `BadStatus` and changes nothing.
pub fn close_round(round: &mut Round) -> (res: Result<(), ClaimError>)
    ensures
        (*final(round), res) == spec_close(*old(round)),
        res is Ok <==> old(round).status is Open,
{
    if matches!(round.status, RoundStatus::Open) {
        round.status = RoundStatus::Closed;
        Ok(())
    } else {
        Err(ClaimError::BadStatus)
    }
}

/// Finalizes a `Closed` round against the escrow balance the host read
/// from the funding ledger at call time — the sole moment truth about
/// funds enters the system. On success `pool_amount` is frozen at that
/// balance, `per_share` is the floor-divided equal share, and the round is
/// `Finalized`; any remainder stays permanently unclaimed. On rejection
/// nothing changes.
pub fn finalize_round(round: &mut Round, escrow_balance: u64) -> (res: Result<(), ClaimError>)
    ensures
        (*final(round), res) == spec_finalize(*old(round), escrow_balance),
        res is Ok <==> old(round).status is Closed && old(round).total_claimers > 0,
{
    if !matches!(round.status, RoundStatus::Closed) {
        Err(ClaimError::BadStatus)
    } else if round.total_claimers == 0 {
        Err(ClaimError::NoClaimers)
    } else {
        round.pool_amount = escrow_balance;
        round.per_share = escrow_balance / round.total_claimers;
        round.status = RoundStatus::Finalized;
        Ok(())
    }
}

} // verus!
