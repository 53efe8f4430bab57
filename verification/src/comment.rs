//! Comments on torrent requests, and the view of them that readers are shown.
//!
//! A comment is stored with the identifier of its author. For display, the author's public
//! identity is attached to it. That is decoration only: the view says who wrote a comment,
//! not who may edit it or until when.

use vstd::prelude::*;
use crate::instant::Instant;
use crate::record::Ownership;

verus! {

/// The public face of a user: what others may see of them.
#[derive(Clone, Debug, PartialEq, Eq)]
pub struct UserLite {
    pub id: i32,
    pub username: String,
}

/// A comment on a torrent request, as it is stored.
#[derive(Clone, Debug, PartialEq, Eq)]
pub struct TorrentRequestComment {
    pub id: i64,
    pub torrent_request_id: i64,
    pub user_id: i32,
    pub content: String,
    pub created_at: Instant,
    pub updated_at: Instant,
}

/// What a user sends to create a comment.
#[derive(Clone, Debug, PartialEq, Eq)]
pub struct UserCreatedTorrentRequestComment {
    pub torrent_request_id: i64,
    pub content: String,
}

/// A comment with the public identity of its author attached, as readers are shown it.
#[derive(Clone, Debug, PartialEq, Eq)]
pub struct TorrentRequestCommentHierarchy {
    pub id: i64,
    pub torrent_request_id: i64,
    pub user_id: i32,
    pub created_by: UserLite,
    pub content: String,
    pub created_at: Instant,
    pub updated_at: Instant,
}

impl TorrentRequestComment {
    /// The ownership facts of this comment: its author and the time it was written.
    pub open spec fn spec_ownership(&self) -> Ownership {
        Ownership { creator_id: self.user_id, created_at: self.created_at }
    }

    /// The ownership facts of this comment, for the edit policy.
    #[verifier::when_used_as_spec(spec_ownership)]
    pub fn ownership(&self) -> (o: Ownership)
        ensures
            o == self.spec_ownership(),
    {
        Ownership { creator_id: self.user_id, created_at: self.created_at }
    }

    /// This comment as readers see it when `created_by` is its author.
    pub open spec fn spec_with_author(self, created_by: UserLite) -> TorrentRequestCommentHierarchy {
        TorrentRequestCommentHierarchy {
            id: self.id,
            torrent_request_id: self.torrent_request_id,
            user_id: self.user_id,
            created_by,
            content: self.content,
            created_at: self.created_at,
            updated_at: self.updated_at,
        }
    }

    /// Attaches the author's public identity to the comment.
    ///
    /// Every stored field is carried over as it is and nothing else is added: the view
    /// holds no role and no hint of whether the comment can still be edited.
    #[verifier::when_used_as_spec(spec_with_author)]
    pub fn with_author(self, created_by: UserLite) -> (shown: TorrentRequestCommentHierarchy)
        ensures
            shown == self.spec_with_author(created_by),
    {
        TorrentRequestCommentHierarchy {
            id: self.id,
            torrent_request_id: self.torrent_request_id,
            user_id: self.user_id,
            created_by,
            content: self.content,
            created_at: self.created_at,
            updated_at: self.updated_at,
        }
    }
}

/// The views of a list of comments, each paired with its author.
pub open spec fn spec_with_authors(rows: Seq<(TorrentRequestComment, UserLite)>) -> Seq<
    TorrentRequestCommentHierarchy,
> {
    Seq::new(rows.len(), |i: int| rows[i].0.with_author(rows[i].1))
}

/// Attaches to each comment the public identity it is paired with, keeping the order.
pub fn with_authors(rows: Vec<(TorrentRequestComment, UserLite)>) -> (shown: Vec<
    TorrentRequestCommentHierarchy,
>)
    ensures
        shown@ == spec_with_authors(rows@),
        shown@.len() == rows@.len(),
        forall|i: int|
            0 <= i < rows@.len() ==> #[trigger] shown@[i] == rows@[i].0.with_author(rows@[i].1),
{
    let ghost all = rows@;
    let mut shown: Vec<TorrentRequestCommentHierarchy> = Vec::new();
    for row in it: rows.into_iter()
        invariant
            it.seq() == all,
            shown@.len() == it.index(),
            forall|i: int|
                0 <= i < it.index() ==> #[trigger] shown@[i] == all[i].0.with_author(all[i].1),
    {
        let (comment, created_by) = row;
        shown.push(comment.with_author(created_by));
    }
    assert(shown@ =~= spec_with_authors(all));
    shown
}

} // verus!
