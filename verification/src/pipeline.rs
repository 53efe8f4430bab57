//! The edit pipeline: load the record, ask the policy, and only then write.
//!
//! The record store is somebody else's: it is reached over the network and may be slow or
//! down. So the pipeline does no I/O of its own. It is a sequence of two states, each of
//! which says what to ask of the store and takes the store's reply:
//!
//! 1. [`AwaitingRecord`] asks for the record named by [`AwaitingRecord::target`] and takes
//!    a [`FetchReply`]. A missing record, an unreachable store and a denial all end the
//!    edit here.
//! 2. [`AwaitingWrite`] exists only for an edit that the policy allowed. It asks for
//!    [`AwaitingWrite::record`] to be written and takes a [`PersistReply`].
//!
//! A write needs an [`AwaitingWrite`], and the only way to one is through the policy.

use vstd::prelude::*;
use vstd::std_specs::convert::FromSpecImpl;
use crate::actor::Actor;
use crate::instant::{Instant, NANOS_PER_SECOND};
use crate::policy::{Decision, DenyReason, PolicyEngine};
use crate::record::{Proposal, Record};

verus! {

/// Why an edit did not go through. Each of these ends the request: nothing is retried and
/// nothing is written.
#[derive(Clone, Copy, Debug, PartialEq, Eq, Structural)]
pub enum EditError {
    /// The store holds no record with the requested identifier.
    NotFound,
    /// The policy denied the edit.
    InsufficientPrivileges,
    /// The store could not be reached, or failed before writing anything.
    StoreUnavailable,
}

impl From<DenyReason> for EditError {
    /// The failure that reports a denial to the caller.
    fn from(reason: DenyReason) -> (e: EditError) {
        match reason {
            DenyReason::InsufficientPrivileges => EditError::InsufficientPrivileges,
        }
    }
}

impl FromSpecImpl<DenyReason> for EditError {
    open spec fn obeys_from_spec() -> bool {
        true
    }

    open spec fn from_spec(reason: DenyReason) -> EditError {
        match reason {
            DenyReason::InsufficientPrivileges => EditError::InsufficientPrivileges,
        }
    }
}

/// What the store answered when asked for a record.
#[derive(Debug, PartialEq, Eq)]
pub enum FetchReply<P> {
    /// The record as it is stored now.
    Found(Record<P>),
    /// There is no such record.
    Missing,
    /// The store could not answer.
    Unavailable,
}

/// What the store answered when asked to write a record.
#[derive(Debug, PartialEq, Eq)]
pub enum PersistReply<P> {
    /// The record as it stands in the store after the write.
    Stored(Record<P>),
    /// The store wrote nothing.
    Unavailable,
}

/// An edit that has been requested and waits for the stored record.
#[derive(Debug, PartialEq, Eq)]
pub struct AwaitingRecord<P> {
    /// The policy in force.
    pub engine: PolicyEngine,
    /// Who asks for the edit.
    pub actor: Actor,
    /// The state that the actor wants the record to have. Its `id` names the record.
    pub proposed: Proposal<P>,
}

/// An edit that the policy allowed and that waits to be written.
///
/// The only way to a value of this type is [`AwaitingRecord::on_fetched`] (or its variant
/// that reads the clock), and only where the policy said yes.
#[derive(Debug, PartialEq, Eq)]
pub struct AwaitingWrite<P> {
    record: Record<P>,
}

impl<P> FetchReply<P> {
    /// The stored record, or the failure that its absence means.
    pub open spec fn spec_into_record(self) -> Result<Record<P>, EditError> {
        match self {
            FetchReply::Found(stored) => Ok(stored),
            FetchReply::Missing => Err(EditError::NotFound),
            FetchReply::Unavailable => Err(EditError::StoreUnavailable),
        }
    }

    /// Takes the stored record out of the reply. A missing record is `NotFound`, a store
    /// that could not answer is `StoreUnavailable`.
    #[verifier::when_used_as_spec(spec_into_record)]
    pub fn into_record(self) -> (r: Result<Record<P>, EditError>)
        ensures
            r == self.spec_into_record(),
    {
        match self {
            FetchReply::Found(stored) => Ok(stored),
            FetchReply::Missing => Err(EditError::NotFound),
            FetchReply::Unavailable => Err(EditError::StoreUnavailable),
        }
    }
}

impl<P> AwaitingRecord<P> {
    /// What becomes of the edit once `stored` is known to be the current record: the
    /// record to write if the policy allows the edit at `now`, else the denial.
    pub open spec fn judgement(self, stored: Record<P>, now: Instant) -> Result<
        Record<P>,
        EditError,
    > {
        match self.engine.decision(self.actor, stored.ownership(), now) {
            Decision::Allow => Ok(stored.revised(self.proposed)),
            Decision::Deny(DenyReason::InsufficientPrivileges) => Err(
                EditError::InsufficientPrivileges,
            ),
        }
    }

    /// What becomes of the edit once the store has replied: the record to write, or the
    /// failure that ends the request.
    pub open spec fn verdict(self, reply: FetchReply<P>, now: Instant) -> Result<
        Record<P>,
        EditError,
    > {
        match reply.into_record() {
            Ok(stored) => self.judgement(stored, now),
            Err(e) => Err(e),
        }
    }

    /// Starts an edit of the record `proposed.id` on behalf of `actor`.
    pub fn begin(engine: PolicyEngine, actor: Actor, proposed: Proposal<P>) -> (state: Self)
        ensures
            state == (AwaitingRecord { engine, actor, proposed }),
    {
        AwaitingRecord { engine, actor, proposed }
    }

    /// The identifier of the record to ask the store for.
    pub fn target(&self) -> (id: i64)
        ensures
            id == self.proposed.id,
    {
        self.proposed.id
    }

    /// Judges the edit against the record `stored`, at the instant `now`.
    ///
    /// If the policy allows the edit, the result holds the record to write: `stored` with
    /// the business fields of the proposal. If it denies, the result is the denial and
    /// there is nothing to write.
    pub fn judge(self, stored: Record<P>, now: Instant) -> (r: Result<AwaitingWrite<P>, EditError>)
        ensures
            r matches Ok(next) ==> self.judgement(stored, now) == Ok::<Record<P>, EditError>(
                next@,
            ),
            r matches Err(e) ==> self.judgement(stored, now) == Err::<Record<P>, EditError>(e),
    {
        let ownership = stored.ownership();
        match self.engine.decide(&self.actor, &ownership, now) {
            Decision::Allow => Ok(AwaitingWrite { record: stored.revised(self.proposed) }),
            Decision::Deny(reason) => Err(EditError::from(reason)),
        }
    }

    /// Takes the store's reply to the fetch, with `now` as the current time.
    ///
    /// A missing record ends the edit with `NotFound` and an unreachable store with
    /// `StoreUnavailable`, in both cases without consulting the policy. Otherwise the
    /// policy decides, as in [`judge`](Self::judge).
    pub fn on_fetched(self, reply: FetchReply<P>, now: Instant) -> (r: Result<
        AwaitingWrite<P>,
        EditError,
    >)
        ensures
            r matches Ok(next) ==> self.verdict(reply, now) == Ok::<Record<P>, EditError>(next@),
            r matches Err(e) ==> self.verdict(reply, now) == Err::<Record<P>, EditError>(e),
    {
        match reply.into_record() {
            Ok(stored) => self.judge(stored, now),
            Err(e) => Err(e),
        }
    }

    /// Takes the store's reply to the fetch and judges the edit at the current time.
    ///
    /// The clock is read only if there is a record to judge. Whatever it reads, the result
    /// is the verdict for that reading.
    pub fn on_fetched_now(self, reply: FetchReply<P>) -> (r: Result<AwaitingWrite<P>, EditError>)
        ensures
            exists|now: Instant|
                {
                    &&& 0 <= now.secs
                    &&& now.subsec_nanos < NANOS_PER_SECOND
                    &&& r matches Ok(next) ==> #[trigger] self.verdict(reply, now) == Ok::<
                        Record<P>,
                        EditError,
                    >(next@)
                    &&& r matches Err(e) ==> self.verdict(reply, now) == Err::<
                        Record<P>,
                        EditError,
                    >(e)
                },
    {
        match reply.into_record() {
            Ok(stored) => {
                let now = Instant::now();
                let r = self.judge(stored, now);
                assert(self.verdict(reply, now) == self.judgement(stored, now));
                r
            },
            Err(e) => {
                assert(self.verdict(reply, Instant { secs: 0, subsec_nanos: 0 }) == Err::<
                    Record<P>,
                    EditError,
                >(e));
                Err(e)
            },
        }
    }
}

impl<P> View for AwaitingWrite<P> {
    type V = Record<P>;

    /// The record that waits to be written.
    closed spec fn view(&self) -> Record<P> {
        self.record
    }
}

impl<P> AwaitingWrite<P> {
    /// What the caller gets back once the store has replied to the write.
    pub open spec fn completion(reply: PersistReply<P>) -> Result<Record<P>, EditError> {
        match reply {
            PersistReply::Stored(written) => Ok(written),
            PersistReply::Unavailable => Err(EditError::StoreUnavailable),
        }
    }

    /// The record to hand to the store.
    pub fn record(&self) -> (r: &Record<P>)
        ensures
            *r == self@,
    {
        &self.record
    }

    /// Takes the store's reply to the write and ends the edit.
    ///
    /// On success the caller gets the record exactly as the store reports it written. A
    /// store that wrote nothing ends the edit with `StoreUnavailable`.
    pub fn on_persisted(self, reply: PersistReply<P>) -> (r: Result<Record<P>, EditError>)
        ensures
            r == Self::completion(reply),
    {
        match reply {
            PersistReply::Stored(written) => Ok(written),
            PersistReply::Unavailable => Err(EditError::StoreUnavailable),
        }
    }
}

/// A write is reached exactly when the store found the record and the policy allowed the
/// edit. In particular a denied edit is never written: it ends with the denial, and no
/// record to write comes into being.
pub proof fn only_an_allowed_edit_is_written<P>(
    state: AwaitingRecord<P>,
    reply: FetchReply<P>,
    now: Instant,
)
    ensures
        state.verdict(reply, now) is Ok <==> (reply matches FetchReply::Found(stored)
            && state.engine.decision(state.actor, stored.ownership(), now) == Decision::Allow),
        reply matches FetchReply::Found(stored) && state.engine.decision(
            state.actor,
            stored.ownership(),
            now,
        ) is Deny ==> state.verdict(reply, now) == Err::<Record<P>, EditError>(
            EditError::InsufficientPrivileges,
        ),
{
}

/// An edit cannot touch who created a record or when: the record to write has the
/// identity and the ownership facts of the stored record, whatever the proposal holds in
/// those fields, and the business fields of the proposal.
pub proof fn an_edit_keeps_ownership<P>(
    state: AwaitingRecord<P>,
    stored: Record<P>,
    now: Instant,
    written: Record<P>,
)
    requires
        state.verdict(FetchReply::Found(stored), now) == Ok::<Record<P>, EditError>(written),
    ensures
        written.creator_id == stored.creator_id,
        written.created_at == stored.created_at,
        written.id == stored.id,
        written.payload == state.proposed.payload,
{
}

/// A record that does not exist is not judged: the edit ends with `NotFound` whoever asks,
/// whatever the policy and whatever the time.
pub proof fn a_missing_record_is_not_found<P>(state: AwaitingRecord<P>, now: Instant)
    ensures
        state.verdict(FetchReply::Missing, now) == Err::<Record<P>, EditError>(
            EditError::NotFound,
        ),
{
}

} // verus!
