//! The authenticated caller of a request.

use vstd::prelude::*;

verus! {

/// The privilege tier of an actor.
#[derive(Clone, Copy, Debug, PartialEq, Eq, Structural)]
pub enum Role {
    /// An ordinary user, who may edit only what they created, and only for a while.
    Member,
    /// An accountable, elevated user, who may edit any record at any time.
    Staff,
}

/// Who is asking: a stable identifier and a role, both validated before they get here.
#[derive(Clone, Copy, Debug, PartialEq, Eq, Structural)]
pub struct Actor {
    pub id: i32,
    pub role: Role,
}

impl Actor {
    /// An ordinary member with the given identifier.
    pub fn member(id: i32) -> (a: Actor)
        ensures
            a == (Actor { id, role: Role::Member }),
    {
        Actor { id, role: Role::Member }
    }

    /// A staff member with the given identifier.
    pub fn staff(id: i32) -> (a: Actor)
        ensures
            a == (Actor { id, role: Role::Staff }),
    {
        Actor { id, role: Role::Staff }
    }
}

} // verus!
