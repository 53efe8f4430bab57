//! The ownership policy: who may edit a record, and until when.

use vstd::prelude::*;
use crate::actor::{Actor, Role};
use crate::instant::{Instant, NANOS_PER_DAY};
use crate::record::Ownership;

verus! {

/// The grace period that the policy grants unless told otherwise, in days.
pub const GRACE_PERIOD_IN_DAYS: i64 = 7;

/// Why an edit was turned down.
#[derive(Clone, Copy, Debug, PartialEq, Eq, Structural)]
pub enum DenyReason {
    /// The actor is neither staff nor the creator inside the grace window.
    InsufficientPrivileges,
}

/// The outcome of one policy evaluation, for the record as a whole.
#[derive(Clone, Copy, Debug, PartialEq, Eq, Structural)]
pub enum Decision {
    Allow,
    Deny(DenyReason),
}

/// The policy with its one setting, the length of the grace period.
#[derive(Clone, Copy, Debug, PartialEq, Eq, Structural)]
pub struct PolicyEngine {
    pub grace_period_days: i64,
}

impl PolicyEngine {
    /// The length of the grace period in nanoseconds.
    pub open spec fn grace_period(&self) -> int {
        self.grace_period_days * NANOS_PER_DAY
    }

    /// The first instant, in nanoseconds since the epoch, at which the creator of a record
    /// made at `created_at` may no longer edit it.
    pub open spec fn window_end(&self, created_at: Instant) -> int {
        created_at@ + self.grace_period()
    }

    /// Whether `now` is before the end of the grace window of a record made at
    /// `created_at`. The window is `[created_at, created_at + grace period)`: its end is
    /// the first instant outside.
    pub open spec fn in_window(&self, created_at: Instant, now: Instant) -> bool {
        now@ < self.window_end(created_at)
    }

    /// Whether the policy lets `actor` edit a record with these ownership facts at `now`.
    pub open spec fn permits(&self, actor: Actor, ownership: Ownership, now: Instant) -> bool {
        match actor.role {
            Role::Staff => true,
            Role::Member => actor.id == ownership.creator_id && self.in_window(
                ownership.created_at,
                now,
            ),
        }
    }

    /// The decision of the policy, as a mathematical function of its inputs.
    pub open spec fn decision(&self, actor: Actor, ownership: Ownership, now: Instant) -> Decision {
        if self.permits(actor, ownership, now) {
            Decision::Allow
        } else {
            Decision::Deny(DenyReason::InsufficientPrivileges)
        }
    }

    /// A policy whose grace period lasts `grace_period_days` days.
    pub fn new(grace_period_days: i64) -> (engine: PolicyEngine)
        ensures
            engine.grace_period_days == grace_period_days,
    {
        PolicyEngine { grace_period_days }
    }

    /// Tells whether `now` is before the end of the grace window of a record made at
    /// `created_at`. Nothing on the way can overflow: every instant and every grace period
    /// fits in 128 bits with room to spare.
    fn within_grace_window(&self, created_at: Instant, now: Instant) -> (inside: bool)
        ensures
            inside == self.in_window(created_at, now),
    {
        let days: i128 = self.grace_period_days as i128;
        let nanos_per_day: i128 = NANOS_PER_DAY as i128;
        let end: i128 = created_at.nanos() + days * nanos_per_day;
        now.nanos() < end
    }

    /// Decides whether `actor` may edit a record with the given ownership facts at `now`.
    ///
    /// Staff are always allowed. A member is allowed exactly when they created the record
    /// and `now` is before the end of the grace window. Everyone else is denied for
    /// insufficient privileges. The decision is for the whole record, reads no clock and
    /// touches no state.
    pub fn decide(&self, actor: &Actor, ownership: &Ownership, now: Instant) -> (d: Decision)
        ensures
            d == self.decision(*actor, *ownership, now),
    {
        match actor.role {
            Role::Staff => Decision::Allow,
            Role::Member => {
                if actor.id == ownership.creator_id && self.within_grace_window(
                    ownership.created_at,
                    now,
                ) {
                    Decision::Allow
                } else {
                    Decision::Deny(DenyReason::InsufficientPrivileges)
                }
            },
        }
    }
}

/// The policy with the usual grace period of [`GRACE_PERIOD_IN_DAYS`] days.
impl Default for PolicyEngine {
    fn default() -> (engine: PolicyEngine)
        ensures
            engine.grace_period_days == GRACE_PERIOD_IN_DAYS,
    {
        PolicyEngine { grace_period_days: GRACE_PERIOD_IN_DAYS }
    }
}

/// Staff may edit any record at any time, whoever created it and however old it is.
pub proof fn staff_are_always_allowed(
    engine: PolicyEngine,
    actor: Actor,
    ownership: Ownership,
    now: Instant,
)
    requires
        actor.role == Role::Staff,
    ensures
        engine.decision(actor, ownership, now) == Decision::Allow,
{
}

/// A member who created the record may edit it at any instant before the grace window ends.
pub proof fn creator_is_allowed_inside_the_window(
    engine: PolicyEngine,
    actor: Actor,
    ownership: Ownership,
    now: Instant,
)
    requires
        actor.role == Role::Member,
        actor.id == ownership.creator_id,
        now@ < ownership.created_at@ + engine.grace_period(),
    ensures
        engine.decision(actor, ownership, now) == Decision::Allow,
{
}

/// A member who did not create the record is denied, whatever the time.
pub proof fn other_members_are_always_denied(
    engine: PolicyEngine,
    actor: Actor,
    ownership: Ownership,
    now: Instant,
)
    requires
        actor.role == Role::Member,
        actor.id != ownership.creator_id,
    ensures
        engine.decision(actor, ownership, now) == Decision::Deny(DenyReason::InsufficientPrivileges),
{
}

/// The grace window is closed at its start and open at its end: a member is denied at the
/// instant the window ends, and its creator is still allowed one nanosecond earlier.
pub proof fn window_end_is_excluded(
    engine: PolicyEngine,
    actor: Actor,
    ownership: Ownership,
    at_end: Instant,
    just_before: Instant,
)
    requires
        actor.role == Role::Member,
        at_end@ == ownership.created_at@ + engine.grace_period(),
        just_before@ == ownership.created_at@ + engine.grace_period() - 1,
    ensures
        engine.decision(actor, ownership, at_end) == Decision::Deny(
            DenyReason::InsufficientPrivileges,
        ),
        actor.id == ownership.creator_id ==> engine.decision(actor, ownership, just_before)
            == Decision::Allow,
{
}

/// Deciding is repeatable: whatever two evaluations of the same inputs return, they
/// return the same.
pub proof fn decide_is_repeatable(
    engine: PolicyEngine,
    actor: Actor,
    ownership: Ownership,
    now: Instant,
    first: Decision,
    second: Decision,
)
    requires
        call_ensures(PolicyEngine::decide, (&engine, &actor, &ownership, now), first),
        call_ensures(PolicyEngine::decide, (&engine, &actor, &ownership, now), second),
    ensures
        first == second,
        first == engine.decision(actor, ownership, now),
{
}

} // verus!
