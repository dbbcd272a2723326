//! Blog reactions: what a like or dislike toggle changes.
//!
//! The store keeps, per user and post, at most one row saying whether the
//! user's standing reaction is a like. Toggling computes the count deltas and
//! the row to write from the user's current reaction; reading and writing the
//! rows happens outside.

use vstd::prelude::*;

verus! {

/// The blog endpoints of the service.
pub struct BlogApi {}

/// What a reaction toggle asks the store to do.
pub struct ReactionChange {
    /// Added to the post's like count.
    pub like_delta: i64,
    /// Added to the post's dislike count.
    pub dislike_delta: i64,
    /// The reaction row afterwards: `Some(is_like)` upserts, `None` deletes.
    pub store: Option<bool>,
}

/// A user's standing reaction, `(has_liked, has_disliked)`, from the stored
/// row: a like row means liked, a dislike row means disliked, no row means
/// neither.
pub fn user_reaction(row: Option<bool>) -> (r: (bool, bool))
    ensures
        row matches Some(is_like) ==> r == (is_like, !is_like),
        row is None ==> r == (false, false),
{
    match row {
        Some(is_like) => (is_like, !is_like),
        None => (false, false),
    }
}

impl BlogApi {
    /// A like toggle: an existing like is withdrawn; otherwise a like is
    /// recorded and any standing dislike withdrawn with it.
    pub fn like_change(has_liked: bool, has_disliked: bool) -> (r: ReactionChange)
        ensures
            r.like_delta == if has_liked {
                -1int
            } else {
                1int
            },
            r.dislike_delta == if has_disliked {
                -1int
            } else {
                0int
            },
            r.store == if !has_liked {
                Some(true)
            } else {
                None::<bool>
            },
    {
        ReactionChange {
            like_delta: if has_liked {
                -1
            } else {
                1
            },
            dislike_delta: if has_disliked {
                -1
            } else {
                0
            },
            store: if !has_liked {
                Some(true)
            } else {
                None
            },
        }
    }

    /// A dislike toggle: an existing dislike is withdrawn; otherwise a dislike
    /// is recorded and any standing like withdrawn with it.
    pub fn dislike_change(has_liked: bool, has_disliked: bool) -> (r: ReactionChange)
        ensures
            r.like_delta == if has_liked {
                -1int
            } else {
                0int
            },
            r.dislike_delta == if has_disliked {
                -1int
            } else {
                1int
            },
            r.store == if !has_disliked {
                Some(false)
            } else {
                None::<bool>
            },
    {
        ReactionChange {
            like_delta: if has_liked {
                -1
            } else {
                0
            },
            dislike_delta: if has_disliked {
                -1
            } else {
                1
            },
            store: if !has_disliked {
                Some(false)
            } else {
                None
            },
        }
    }
}

} // verus!
