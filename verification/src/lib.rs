//! Federation deletion core: receives, authenticates and applies Delete and
//! Undo(Delete) activities for communities, posts and comments, and decides
//! which storage transitions, moderation-log entries, notifications and
//! forwarded activities each verified activity produces.

use vstd::prelude::*;

pub mod activities;
pub mod api;
pub mod db;
pub mod deletion;
pub mod ids;
pub mod laws;
pub mod model;
pub mod remote;

verus! {

/// The errors of the deletion core. The first three reject an activity as
/// unauthentic, `NotAuthorized` rejects it for lack of standing,
/// `UnresolvableObject` covers resolution and fetch-budget failures, and
/// `StorageError` a persistence failure after authorization passed.
#[derive(Clone, Copy, PartialEq, Eq, Debug, Structural)]
pub enum ActivityError {
    /// The actor's domain differs from the activity id's domain: spoofing.
    DomainMismatch,
    /// Object and audience do not share the acting domain they must share.
    CrossDomainForgery,
    /// The acting identity does not resolve to a valid, non-blocked actor.
    InvalidActor,
    /// The actor lacks the moderator or admin standing the action needs.
    NotAuthorized,
    /// The object (or actor) could not be resolved, or the fetch budget ran out.
    UnresolvableObject,
    /// The storage update could not be persisted.
    StorageError,
}

/// The per-activity budget on remote fetches: resolving actors or objects
/// from another server may recurse, and each inbound activity is only allowed
/// a bounded number of outgoing requests.
pub struct RequestCounter {
    pub used: u32,
    pub limit: u32,
}

impl RequestCounter {
    pub fn new(limit: u32) -> (r: RequestCounter)
        ensures
            r.used == 0,
            r.limit == limit,
    {
        RequestCounter { used: 0, limit }
    }

    /// True when one more remote fetch is still within the budget; consumes
    /// one unit of the budget exactly when it returns true.
    pub fn try_consume(&mut self) -> (r: bool)
        ensures
            r == (old(self).used < old(self).limit),
            final(self).limit == old(self).limit,
            final(self).used == if old(self).used < old(self).limit {
                old(self).used + 1
            } else {
                old(self).used as int
            },
    {
        if self.used < self.limit {
            self.used = self.used + 1;
            true
        } else {
            false
        }
    }
}

} // verus!
