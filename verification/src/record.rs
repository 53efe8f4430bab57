//! Records that users create and later edit, and the ownership facts they carry.

use vstd::prelude::*;
use crate::instant::Instant;

verus! {

/// The two facts about a record that decide who may edit it: who created it, and when.
///
/// Both are fixed when the record is created and never change afterwards.
#[derive(Clone, Copy, Debug, PartialEq, Eq, Structural)]
pub struct Ownership {
    pub creator_id: i32,
    pub created_at: Instant,
}

/// A stored record: its identity, its ownership facts, and the business fields `P`
/// (a name and a description, the text of a comment, ...).
#[derive(Clone, Debug, PartialEq, Eq)]
pub struct Record<P> {
    pub id: i64,
    pub creator_id: i32,
    pub created_at: Instant,
    pub payload: P,
}

/// The state that a caller wants a record to have.
///
/// A caller is free to say who created the record and when, and is not believed: these
/// two fields are carried for the sake of whoever parses requests and are never written.
#[derive(Clone, Debug, PartialEq, Eq)]
pub struct Proposal<P> {
    /// The identifier of the record to edit.
    pub id: i64,
    /// The creator that the caller claims for the record, if any.
    pub creator_id: Option<i32>,
    /// The creation time that the caller claims for the record, if any.
    pub created_at: Option<Instant>,
    /// The business fields that the record is to have.
    pub payload: P,
}

impl<P> Proposal<P> {
    /// A proposal to give the record `id` the business fields `payload`, with no claim
    /// about its ownership.
    pub fn new(id: i64, payload: P) -> (proposal: Proposal<P>)
        ensures
            proposal == (Proposal { id, creator_id: None, created_at: None, payload }),
    {
        Proposal { id, creator_id: None, created_at: None, payload }
    }
}

impl<P> Record<P> {
    /// The ownership facts of this record.
    pub open spec fn spec_ownership(&self) -> Ownership {
        Ownership { creator_id: self.creator_id, created_at: self.created_at }
    }

    /// The ownership facts of this record, which is all the policy ever looks at.
    #[verifier::when_used_as_spec(spec_ownership)]
    pub fn ownership(&self) -> (o: Ownership)
        ensures
            o == self.spec_ownership(),
    {
        Ownership { creator_id: self.creator_id, created_at: self.created_at }
    }

    /// This record with the business fields of `proposed` in place of its own.
    pub open spec fn spec_revised(self, proposed: Proposal<P>) -> Record<P> {
        Record {
            id: self.id,
            creator_id: self.creator_id,
            created_at: self.created_at,
            payload: proposed.payload,
        }
    }

    /// Overwrites the business fields with those of `proposed`.
    ///
    /// Identity and ownership stay those of the stored record, whatever `proposed` claims
    /// for them: an edit can neither hand a record to someone else nor change its age.
    #[verifier::when_used_as_spec(spec_revised)]
    pub fn revised(self, proposed: Proposal<P>) -> (r: Record<P>)
        ensures
            r == self.spec_revised(proposed),
            r.id == self.id,
            r.creator_id == self.creator_id,
            r.created_at == self.created_at,
            r.payload == proposed.payload,
    {
        Record {
            id: self.id,
            creator_id: self.creator_id,
            created_at: self.created_at,
            payload: proposed.payload,
        }
    }
}

} // verus!
