//! The protocol's data model: rounds, claim tickets, and the error taxonomy.

use vstd::prelude::*;

verus! {

/// Lifecycle state of a round. It only ever moves forward:
/// `Draft -> Open -> Closed -> Finalized`, and `Finalized` is terminal.
#[derive(Clone, Copy, Debug, PartialEq, Eq, Structural)]
pub enum RoundStatus {
    Draft,
    Open,
    Closed,
    Finalized,
}

/// Position of a status along the lifecycle; later states rank higher.
pub open spec fn status_rank(s: RoundStatus) -> int {
    match s {
        RoundStatus::Draft => 0,
        RoundStatus::Open => 1,
        RoundStatus::Closed => 2,
        RoundStatus::Finalized => 3,
    }
}

/// Well-formedness of a round, established at creation and preserved by
/// every operation: the recorded totals are zero until finalize, and once
/// finalized they are frozen with `per_share` the floor-divided equal
/// share of the pool among a positive number of claimers.
pub open spec fn round_wf(r: Round) -> bool {
    &&& !(r.status is Finalized) ==> r.pool_amount == 0 && r.per_share == 0
    &&& r.status is Finalized ==> r.total_claimers > 0 && r.per_share == r.pool_amount
        / r.total_claimers
}

/// Well-formedness of a ticket: only a registered ticket can have been
/// paid out.
pub open spec fn ticket_wf(t: ClaimTicket) -> bool {
    t.withdrawn ==> t.claimed
}

/// One distribution event. The host environment stores rounds durably,
/// keyed by `id`; account identities (the asset kind, participants) are
/// plain numeric identifiers that the host maps to real addresses.
#[derive(Clone, Copy, Debug, PartialEq, Eq, Structural)]
pub struct Round {
    /// Administrator-chosen identifier, immutable after creation.
    pub id: u64,
    /// First timestamp (seconds) at which claims are accepted, inclusive.
    pub opens_at: i64,
    /// Last timestamp (seconds) at which claims are accepted, inclusive.
    pub closes_at: i64,
    /// Identity of the fungible asset this round distributes.
    pub pool_mint: u64,
    /// Total amount confirmed in escrow; zero until finalize, then frozen.
    pub pool_amount: u64,
    /// Count of distinct participants holding a claim ticket.
    pub total_claimers: u64,
    /// Equal payout per ticket, `pool_amount / total_claimers` rounded
    /// down, computed once at finalize.
    pub per_share: u64,
    /// Lifecycle state.
    pub status: RoundStatus,
}

/// A participant's registration record for one round, gating one
/// withdrawal. Created lazily by the host on first claim; never deleted.
#[derive(Clone, Copy, Debug, PartialEq, Eq, Structural)]
pub struct ClaimTicket {
    /// Identifier of the owning round.
    pub round: u64,
    /// The participant's identity.
    pub claimer: u64,
    /// Set exactly once, at registration; guards re-registration.
    pub claimed: bool,
    /// Set exactly once, at successful withdrawal; guards double payout.
    pub withdrawn: bool,
}

/// Every way an operation can be rejected. A rejected operation has no
/// effect at all: there is no partially applied round or ticket state.
#[derive(Clone, Copy, Debug, PartialEq, Eq, Structural)]
pub enum ClaimError {
    /// Claim attempted while the round is not `Open`.
    NotOpen,
    /// Claim attempted outside the round's time window.
    Window,
    /// Lifecycle operation invoked against a round not in the required state.
    BadStatus,
    /// The participant's ticket for this round is already registered.
    AlreadyClaimed,
    /// Withdrawal attempted on a ticket that was never registered.
    NotClaimed,
    /// The ticket's one withdrawal already happened.
    AlreadyWithdrawn,
    /// Finalize attempted with zero registered tickets.
    NoClaimers,
    /// Withdrawal attempted before finalize completed.
    NotFinalized,
    /// A counter or share computation would overflow its numeric range.
    Math,
}

} // verus!
