//! The object model of the deletion core: federated persons, communities,
//! posts and comments as the local storage layer holds them, the two deletion
//! flags, the moderation log, and the notification events the side-effect
//! dispatcher emits.

use vstd::prelude::*;
use crate::ids::ApubId;

verus! {

/// A federated identity capable of issuing activities.
pub struct Person {
    pub id: u64,
    pub apub_id: ApubId,
    /// Whether the identity's authoritative origin is this server.
    pub local: bool,
    /// Whether the identity is an administrator, as known locally.
    pub admin: bool,
}

/// A community. The moderator list is ordered: index 0 is the top moderator.
pub struct Community {
    pub id: u64,
    pub apub_id: ApubId,
    pub local: bool,
    pub deleted: bool,
    pub removed: bool,
    pub moderators: Vec<u64>,
}

pub struct Post {
    pub id: u64,
    pub apub_id: ApubId,
    pub community_id: u64,
    pub creator_id: u64,
    pub local: bool,
    pub deleted: bool,
    pub removed: bool,
}

pub struct Comment {
    pub id: u64,
    pub apub_id: ApubId,
    pub post_id: u64,
    pub creator_id: u64,
    pub local: bool,
    pub deleted: bool,
    pub removed: bool,
}

/// A resolved deletable object: its kind together with its local row id.
#[derive(Clone, Copy, PartialEq, Eq, Debug, Structural)]
pub enum DeletableObjects {
    Community(u64),
    Post(u64),
    Comment(u64),
}

/// Which of the two deletion flags a transition targets: `deleted` records a
/// self-initiated deletion, `removed` a moderator- or admin-initiated one.
#[derive(Clone, Copy, PartialEq, Eq, Debug, Structural)]
pub enum TargetFlag {
    Deleted,
    Removed,
}

/// The operation kind a local notification is tagged with.
#[derive(Clone, Copy, PartialEq, Eq, Debug, Structural)]
pub enum UserOperationCrud {
    DeleteCommunity,
    RemoveCommunity,
    EditCommunity,
    DeletePost,
    RemovePost,
    EditPost,
    DeleteComment,
    RemoveComment,
    EditComment,
}

/// The notification tags used when the three object kinds go through the same
/// deletion path.
#[derive(Clone, Copy, PartialEq, Eq, Debug, Structural)]
pub struct WebsocketMessages {
    pub community: UserOperationCrud,
    pub post: UserOperationCrud,
    pub comment: UserOperationCrud,
}

/// One local-notification event, produced exactly once per successful
/// application of an activity.
#[derive(Clone, Copy, PartialEq, Eq, Debug)]
pub struct Notification {
    pub object_id: u64,
    pub op: UserOperationCrud,
    /// A connection to exclude from delivery (the requester's own).
    pub websocket_id: Option<u64>,
    /// The acting identity, for audit display.
    pub person_id: Option<u64>,
}

/// A moderation-log entry: the audit record of a privileged removal or
/// restore.
pub struct ModLogEntry {
    pub mod_person_id: u64,
    pub object: DeletableObjects,
    pub removed: bool,
    pub reason: Option<String>,
    /// Expiry as a unix timestamp, where the removal is temporary.
    pub expires: Option<i64>,
}

/// The community with one deletion flag set to `v` and everything else as it
/// was.
pub open spec fn community_with_flag(c: Community, flag: TargetFlag, v: bool) -> Community {
    match flag {
        TargetFlag::Deleted => Community { deleted: v, ..c },
        TargetFlag::Removed => Community { removed: v, ..c },
    }
}

pub open spec fn post_with_flag(p: Post, flag: TargetFlag, v: bool) -> Post {
    match flag {
        TargetFlag::Deleted => Post { deleted: v, ..p },
        TargetFlag::Removed => Post { removed: v, ..p },
    }
}

pub open spec fn comment_with_flag(c: Comment, flag: TargetFlag, v: bool) -> Comment {
    match flag {
        TargetFlag::Deleted => Comment { deleted: v, ..c },
        TargetFlag::Removed => Comment { removed: v, ..c },
    }
}

} // verus!
