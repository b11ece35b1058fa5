//! The protocol's global guarantees, stated and proved over the spec-level
//! transitions that every executable operation is proved to compute.

use vstd::prelude::*;

use crate::lifecycle::{spec_close, spec_finalize, spec_init, spec_open};
use crate::state::{round_wf, status_rank, ticket_wf, ClaimError, ClaimTicket, Round};
use crate::tickets::{in_window, spec_claim, spec_confirm, spec_withdraw};

verus! {

/// Lifecycle monotonicity: no operation ever moves a round's status
/// backward or skips a state. Each lifecycle transition either leaves the
/// status where it was (when it is rejected) or advances it by exactly one
/// step, and a claim never touches the status at all.
pub proof fn lemma_lifecycle_monotonic(
    r: Round,
    t: ClaimTicket,
    user: u64,
    now: i64,
    escrow_balance: u64,
)
    ensures
        status_rank(spec_open(r).0.status) >= status_rank(r.status),
        spec_open(r).0.status == r.status || status_rank(spec_open(r).0.status) == status_rank(
            r.status,
        ) + 1,
        spec_open(r).1 is Ok ==> r.status is Draft && spec_open(r).0.status is Open,
        status_rank(spec_close(r).0.status) >= status_rank(r.status),
        spec_close(r).0.status == r.status || status_rank(spec_close(r).0.status) == status_rank(
            r.status,
        ) + 1,
        spec_close(r).1 is Ok ==> r.status is Open && spec_close(r).0.status is Closed,
        status_rank(spec_finalize(r, escrow_balance).0.status) >= status_rank(r.status),
        spec_finalize(r, escrow_balance).0.status == r.status || status_rank(
            spec_finalize(r, escrow_balance).0.status,
        ) == status_rank(r.status) + 1,
        spec_finalize(r, escrow_balance).1 is Ok ==> r.status is Closed && spec_finalize(
            r,
            escrow_balance,
        ).0.status is Finalized,
        spec_claim(r, t, user, now).0.status == r.status,
{
}

/// Every operation keeps rounds and tickets well formed: a fresh round is
/// well formed, each transition takes a well-formed round to a well-formed
/// round, registration and confirmation keep the ticket's flags ordered,
/// and `per_share` of a finalized round is always the floor-divided share
/// of its frozen pool.
pub proof fn lemma_well_formedness_preserved(
    r: Round,
    t: ClaimTicket,
    id: u64,
    opens_at: i64,
    closes_at: i64,
    pool_mint: u64,
    user: u64,
    now: i64,
    escrow_balance: u64,
)
    ensures
        round_wf(spec_init(id, opens_at, closes_at, pool_mint)),
        round_wf(r) ==> round_wf(spec_open(r).0),
        round_wf(r) ==> round_wf(spec_close(r).0),
        round_wf(r) ==> round_wf(spec_finalize(r, escrow_balance).0),
        round_wf(r) ==> round_wf(spec_claim(r, t, user, now).0),
        ticket_wf(t) ==> ticket_wf(spec_claim(r, t, user, now).1),
        t.claimed ==> ticket_wf(spec_confirm(t)),
{
}

/// A finalized round is frozen: every operation rejects it and leaves it
/// unchanged, so `pool_amount`, `per_share` and `total_claimers` never
/// move again once `Finalized` is reached.
pub proof fn lemma_finalized_is_terminal(
    r: Round,
    t: ClaimTicket,
    user: u64,
    now: i64,
    escrow_balance: u64,
)
    requires
        r.status is Finalized,
    ensures
        spec_open(r) == (r, Err::<(), ClaimError>(ClaimError::BadStatus)),
        spec_close(r) == (r, Err::<(), ClaimError>(ClaimError::BadStatus)),
        spec_finalize(r, escrow_balance) == (r, Err::<(), ClaimError>(ClaimError::BadStatus)),
        spec_claim(r, t, user, now) == (r, t, Err::<(), ClaimError>(ClaimError::NotOpen)),
{
}

/// Finalize is the sole writer of the distribution totals: opening,
/// closing and claiming never touch `pool_amount` or `per_share`, and the
/// lifecycle transitions never touch `total_claimers` either.
pub proof fn lemma_finalize_sole_writer(r: Round, t: ClaimTicket, user: u64, now: i64)
    ensures
        spec_open(r).0.pool_amount == r.pool_amount && spec_open(r).0.per_share == r.per_share
            && spec_open(r).0.total_claimers == r.total_claimers,
        spec_close(r).0.pool_amount == r.pool_amount && spec_close(r).0.per_share == r.per_share
            && spec_close(r).0.total_claimers == r.total_claimers,
        spec_claim(r, t, user, now).0.pool_amount == r.pool_amount && spec_claim(
            r,
            t,
            user,
            now,
        ).0.per_share == r.per_share,
{
}

/// Exactly-once claim: once a (round, participant) ticket is registered,
/// no later claim with it can ever succeed again. A claim against an
/// already-registered ticket changes nothing — in particular
/// `total_claimers` stays put — and is rejected with `AlreadyClaimed`
/// whenever the other guards (round open, timestamp in window) would have
/// let a first claim through. A successful claim registers the ticket and
/// grows the count by exactly one, so the immediately following claim with
/// the same pair is such a rejected one.
pub proof fn lemma_claim_exactly_once(
    r: Round,
    t: ClaimTicket,
    user: u64,
    now: i64,
    user2: u64,
    now2: i64,
)
    ensures
        t.claimed ==> spec_claim(r, t, user, now).2 !is Ok,
        t.claimed && r.status is Open && in_window(r, now) ==> spec_claim(r, t, user, now) == (
            r,
            t,
            Err::<(), ClaimError>(ClaimError::AlreadyClaimed),
        ),
        spec_claim(r, t, user, now).2 is Ok ==> {
            let (r1, t1, _) = spec_claim(r, t, user, now);
            &&& t1.claimed
            &&& r1.total_claimers == r.total_claimers + 1
            &&& spec_claim(r1, t1, user2, now2).0 == r1
            &&& spec_claim(r1, t1, user2, now2).1 == t1
            &&& spec_claim(r1, t1, user2, now2).2 !is Ok
            &&& in_window(r1, now2) ==> spec_claim(r1, t1, user2, now2).2 == Err::<
                (),
                ClaimError,
            >(ClaimError::AlreadyClaimed)
        },
{
}

/// Exactly-once withdrawal: a ticket already paid is never authorized for
/// a transfer again. Against a finalized round it is rejected with
/// `AlreadyWithdrawn`, and after the one confirmed withdrawal of a ticket
/// that `withdraw` had authorized, any further request is such a
/// rejection.
pub proof fn lemma_withdraw_exactly_once(r: Round, t: ClaimTicket)
    ensures
        t.withdrawn ==> spec_withdraw(r, t) !is Ok,
        t.withdrawn && r.status is Finalized && r.per_share > 0 && t.claimed ==> spec_withdraw(
            r,
            t,
        ) == Err::<u64, ClaimError>(ClaimError::AlreadyWithdrawn),
        spec_withdraw(r, t) is Ok ==> spec_withdraw(r, spec_confirm(t)) == Err::<
            u64,
            ClaimError,
        >(ClaimError::AlreadyWithdrawn),
{
}

/// Conservation with floor rounding: a successful finalize fixes
/// `per_share` so that paying every registered claimer once never exceeds
/// the pool, and the remainder left in escrow is too small to have given
/// every claimer one unit more: `per_share * total_claimers <= pool_amount
/// < (per_share + 1) * total_claimers`.
pub proof fn lemma_conservation(r: Round, escrow_balance: u64)
    requires
        spec_finalize(r, escrow_balance).1 is Ok,
    ensures
        ({
            let r1 = spec_finalize(r, escrow_balance).0;
            &&& r1.per_share * r1.total_claimers <= r1.pool_amount
            &&& r1.pool_amount < (r1.per_share + 1) * r1.total_claimers
        }),
{
    let p = escrow_balance as int;
    let d = r.total_claimers as int;
    let q = p / d;
    let m = p % d;
    vstd::arithmetic::div_mod::lemma_fundamental_div_mod(p, d);
    vstd::arithmetic::div_mod::lemma_mod_bound(p, d);
    assert(q * d <= p < (q + 1) * d) by (nonlinear_arith)
        requires
            p == d * q + m,
            0 <= m < d,
    ;
}

/// Where the remainder of the division is smaller than the share itself,
/// the pool is also bounded by one share beyond the total payout:
/// `pool_amount < per_share * (total_claimers + 1)`. A pool of `8` split
/// among `3` claimers leaves a remainder of `2` against a share of `2`, so
/// the bound is stated only away from such inputs.
pub proof fn lemma_conservation_tight_remainder(r: Round, escrow_balance: u64)
    requires
        spec_finalize(r, escrow_balance).1 is Ok,
        escrow_balance % r.total_claimers < escrow_balance / r.total_claimers,
    ensures
        ({
            let r1 = spec_finalize(r, escrow_balance).0;
            &&& r1.per_share * r1.total_claimers <= r1.pool_amount
            &&& r1.pool_amount < r1.per_share * (r1.total_claimers + 1)
        }),
{
    let p = escrow_balance as int;
    let d = r.total_claimers as int;
    let q = p / d;
    let m = p % d;
    vstd::arithmetic::div_mod::lemma_fundamental_div_mod(p, d);
    vstd::arithmetic::div_mod::lemma_mod_bound(p, d);
    assert(q * d <= p < q * (d + 1)) by (nonlinear_arith)
        requires
            p == d * q + m,
            0 <= m < d,
            m < q,
    ;
}

/// Window enforcement: while a round is open, a claim whose timestamp
/// falls before `opens_at` or after `closes_at` is always rejected with
/// `Window` and changes nothing.
pub proof fn lemma_window_enforced(r: Round, t: ClaimTicket, user: u64, now: i64)
    requires
        r.status is Open,
        now < r.opens_at || now > r.closes_at,
    ensures
        spec_claim(r, t, user, now) == (r, t, Err::<(), ClaimError>(ClaimError::Window)),
{
}

} // verus!
