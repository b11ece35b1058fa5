//! Claim registration and the distribution engine.
//!
//! A claim registers a ticket while the round is open and inside its time
//! window; a withdrawal pays each registered ticket exactly one
//! floor-divided share. The actual asset transfer is the host's: the
//! library authorizes an amount (`withdraw`), the host performs the
//! atomic transfer on the funding ledger, and only a confirmed transfer
//! flips the ticket's flag (`confirm_withdrawal`), so a failed transfer
//! leaves the ticket able to withdraw again.

use vstd::prelude::*;

use crate::state::{ClaimError, ClaimTicket, Round, RoundStatus};

verus! {

/// The timestamp `now` lies inside the round's inclusive window.
pub open spec fn in_window(r: Round, now: i64) -> bool {
    r.opens_at <= now <= r.closes_at
}

/// What `claim` does to the round, the participant's ticket, and the
/// result, with the guards in the order they are checked: the round must
/// be `Open` (else `NotOpen`), `now` must lie in the window (else
/// `Window`), the ticket must not already be registered (else
/// `AlreadyClaimed`), and the claimer count must not overflow (else
/// `Math`). On success the ticket is registered to this round and
/// participant in one step and the count grows by exactly one; on any
/// rejection both values are unchanged.
pub open spec fn spec_claim(r: Round, t: ClaimTicket, user: u64, now: i64) -> (
    Round,
    ClaimTicket,
    Result<(), ClaimError>,
) {
    if !(r.status is Open) {
        (r, t, Err(ClaimError::NotOpen))
    } else if !in_window(r, now) {
        (r, t, Err(ClaimError::Window))
    } else if t.claimed {
        (r, t, Err(ClaimError::AlreadyClaimed))
    } else if r.total_claimers == u64::MAX {
        (r, t, Err(ClaimError::Math))
    } else {
        (
            Round { total_claimers: (r.total_claimers + 1) as u64, ..r },
            ClaimTicket { round: r.id, claimer: user, claimed: true, withdrawn: false },
            Ok(()),
        )
    }
}

/// What `withdraw` authorizes: the round must be `Finalized` with a
/// positive share (else `NotFinalized`), the ticket registered (else
/// `NotClaimed`) and not yet paid (else `AlreadyWithdrawn`); then, and
/// only then, exactly `per_share` units may be transferred.
pub open spec fn spec_withdraw(r: Round, t: ClaimTicket) -> Result<u64, ClaimError> {
    if !(r.status is Finalized && r.per_share > 0) {
        Err(ClaimError::NotFinalized)
    } else if !t.claimed {
        Err(ClaimError::NotClaimed)
    } else if t.withdrawn {
        Err(ClaimError::AlreadyWithdrawn)
    } else {
        Ok(r.per_share)
    }
}

/// The ticket after its one confirmed withdrawal: only the flag flips.
pub open spec fn spec_confirm(t: ClaimTicket) -> ClaimTicket {
    ClaimTicket { withdrawn: true, ..t }
}

/// Registers the participant's claim ticket for this round at timestamp
/// `now`, the trusted clock value the host read at call time. The ticket
/// is the participant's record for this round, freshly zeroed by the host
/// if none existed yet. Registration and the counter increment happen
/// together; every rejection leaves both the round and the ticket
/// untouched.
pub fn claim(round: &mut Round, ticket: &mut ClaimTicket, user: u64, now: i64) -> (res: Result<
    (),
    ClaimError,
>)
    ensures
        (*final(round), *final(ticket), res) == spec_claim(
            *old(round),
            *old(ticket),
            user,
            now,
        ),
        res is Ok <==> {
            &&& old(round).status is Open
            &&& in_window(*old(round), now)
            &&& !old(ticket).claimed
            &&& old(round).total_claimers < u64::MAX
        },
{
    if !matches!(round.status, RoundStatus::Open) {
        return Err(ClaimError::NotOpen);
    }
    if !(now >= round.opens_at && now <= round.closes_at) {
        return Err(ClaimError::Window);
    }
    if ticket.claimed {
        return Err(ClaimError::AlreadyClaimed);
    }
    if round.total_claimers == u64::MAX {
        return Err(ClaimError::Math);
    }
    ticket.round = round.id;
    ticket.claimer = user;
    ticket.claimed = true;
    ticket.withdrawn = false;
    round.total_claimers = round.total_claimers + 1;
    Ok(())
}

/// Decides a withdrawal request and, on success, returns the exact amount
/// — `per_share` units of the pool asset — that the host must transfer
/// from the round's escrow to the participant. Nothing is mutated here:
/// the ticket is marked only by `confirm_withdrawal`, after the transfer
/// is confirmed. Authorization that the requester is the ticket's claimer
/// is the host's identity boundary.
pub fn withdraw(round: &Round, ticket: &ClaimTicket) -> (res: Result<u64, ClaimError>)
    ensures
        res == spec_withdraw(*round, *ticket),
        res is Ok <==> {
            &&& round.status is Finalized
            &&& round.per_share > 0
            &&& ticket.claimed
            &&& !ticket.withdrawn
        },
        res is Ok ==> res == Ok::<u64, ClaimError>(round.per_share),
{
    if !(matches!(round.status, RoundStatus::Finalized) && round.per_share > 0) {
        return Err(ClaimError::NotFinalized);
    }
    if !ticket.claimed {
        return Err(ClaimError::NotClaimed);
    }
    if ticket.withdrawn {
        return Err(ClaimError::AlreadyWithdrawn);
    }
    Ok(round.per_share)
}

/// Marks the ticket's one withdrawal as done. The host calls this exactly
/// once per ticket, immediately after the transfer authorized by
/// `withdraw` is confirmed; a ticket already paid must never reach here.
pub fn confirm_withdrawal(ticket: &mut ClaimTicket)
    requires
        old(ticket).claimed,
        !old(ticket).withdrawn,
    ensures
        *final(ticket) == spec_confirm(*old(ticket)),
{
    ticket.withdrawn = true;
}

} // verus!
