//! The deletion state machine and side-effect dispatcher: what a verified
//! Delete or Undo(Delete) does to the stored objects, which moderation-log
//! entry it writes, which single notification it emits, and which activity it
//! forwards to the acting community's followers when this server is the
//! authoritative origin.

use vstd::prelude::*;
use crate::ids::ApubId;
use crate::model::{
    Community, DeletableObjects, ModLogEntry, Notification, Person, TargetFlag,
    UserOperationCrud, WebsocketMessages,
};
use crate::db::{
    Database, DbView, communities_has_apub, communities_has_id, community_by_apub,
    community_by_id, comments_has_apub, comment_by_apub, find_community_by_id, lemma_community_at,
    lemma_community_at_apub, lemma_comment_at_apub, lemma_post_at_apub, posts_has_apub,
    post_by_apub, with_comment_flag, with_community_flag, with_mod_log, with_post_flag,
};
use crate::remote::{
    RemoteServers, RemoteView, get_or_fetch_and_upsert_person, spec_resolve_person,
};
use crate::activities::{ActivityCommonFields, Delete, DeleteCommunity, PublicUrl, UndoDelete};
use crate::{ActivityError, RequestCounter};

verus! {

/// An activity this server re-broadcasts to a community's followers.
pub enum AnnouncableActivities {
    Delete(Delete),
    UndoDelete(UndoDelete),
}

/// A forwarding request: the activity, packaged for delivery to the
/// community's follower collection by the outbound delivery mechanism.
pub struct Forward {
    pub community_id: u64,
    pub activity: AnnouncableActivities,
}

/// What a successfully applied activity asks the outside world to do; the
/// storage transition itself has already been applied to the database.
pub struct Effects {
    pub notifications: Vec<Notification>,
    pub forwards: Vec<Forward>,
}

#[verifier::ext_equal]
pub ghost struct EffectsView {
    pub notifications: Seq<Notification>,
    pub forwards: Seq<Forward>,
}

impl View for Effects {
    type V = EffectsView;

    open spec fn view(&self) -> EffectsView {
        EffectsView { notifications: self.notifications@, forwards: self.forwards@ }
    }
}

// ---------------------------------------------------------------------------
// Building outbound activities.
// ---------------------------------------------------------------------------

pub open spec fn spec_build_delete(
    actor: ApubId,
    community_apub: ApubId,
    object_id: ApubId,
    summary: Option<String>,
    activity_id: ApubId,
) -> Delete {
    Delete {
        to: PublicUrl::Public,
        object: object_id,
        cc: community_apub,
        summary: summary,
        common: ActivityCommonFields { id: activity_id, actor: actor },
    }
}

pub open spec fn spec_build_undo_delete(
    actor: ApubId,
    community_apub: ApubId,
    object_id: ApubId,
    summary: Option<String>,
    delete_id: ApubId,
    undo_id: ApubId,
) -> UndoDelete {
    UndoDelete {
        to: PublicUrl::Public,
        object: spec_build_delete(actor, community_apub, object_id, summary, delete_id),
        cc: community_apub,
        common: ActivityCommonFields { id: undo_id, actor: actor },
    }
}

pub fn build_delete(
    actor: &ApubId,
    community_apub: &ApubId,
    object_id: ApubId,
    summary: Option<String>,
    activity_id: ApubId,
) -> (r: Delete)
    ensures
        r == spec_build_delete(*actor, *community_apub, object_id, summary, activity_id),
{
    Delete {
        to: PublicUrl::Public,
        object: object_id,
        cc: community_apub.clone(),
        summary,
        common: ActivityCommonFields { id: activity_id, actor: actor.clone() },
    }
}

pub fn build_undo_delete(
    actor: &ApubId,
    community_apub: &ApubId,
    object_id: ApubId,
    summary: Option<String>,
    delete_id: ApubId,
    undo_id: ApubId,
) -> (r: UndoDelete)
    ensures
        r == spec_build_undo_delete(
            *actor,
            *community_apub,
            object_id,
            summary,
            delete_id,
            undo_id,
        ),
{
    UndoDelete {
        to: PublicUrl::Public,
        object: build_delete(actor, community_apub, object_id, summary, delete_id),
        cc: community_apub.clone(),
        common: ActivityCommonFields { id: undo_id, actor: actor.clone() },
    }
}

impl Delete {
    /// Packages a Delete from a local actor for delivery to the community's
    /// followers; the caller supplies a freshly generated activity id.
    pub fn send(
        actor: &Person,
        community: &Community,
        object_id: ApubId,
        summary: Option<String>,
        activity_id: ApubId,
    ) -> (r: Forward)
        ensures
            r.community_id == community.id,
            r.activity == AnnouncableActivities::Delete(
                spec_build_delete(
                    actor.apub_id,
                    community.apub_id,
                    object_id,
                    summary,
                    activity_id,
                ),
            ),
    {
        Forward {
            community_id: community.id,
            activity: AnnouncableActivities::Delete(
                build_delete(&actor.apub_id, &community.apub_id, object_id, summary, activity_id),
            ),
        }
    }
}

impl UndoDelete {
    /// Packages an Undo(Delete) from a local actor for delivery to the
    /// community's followers; the caller supplies the two fresh activity ids.
    pub fn send(
        actor: &Person,
        community: &Community,
        object_id: ApubId,
        summary: Option<String>,
        delete_id: ApubId,
        undo_id: ApubId,
    ) -> (r: Forward)
        ensures
            r.community_id == community.id,
            r.activity == AnnouncableActivities::UndoDelete(
                spec_build_undo_delete(
                    actor.apub_id,
                    community.apub_id,
                    object_id,
                    summary,
                    delete_id,
                    undo_id,
                ),
            ),
    {
        Forward {
            community_id: community.id,
            activity: AnnouncableActivities::UndoDelete(
                build_undo_delete(
                    &actor.apub_id,
                    &community.apub_id,
                    object_id,
                    summary,
                    delete_id,
                    undo_id,
                ),
            ),
        }
    }
}

// ---------------------------------------------------------------------------
// Applying a Delete or Undo(Delete) without a summary: the `deleted` flag.
// ---------------------------------------------------------------------------

/// The outcome of `receive_delete_action`: the result with the effects, the
/// database afterwards, and the request counter afterwards. The flag write is
/// unconditional, so a replay performs the same write again, and exactly one
/// notification is emitted per successful application. When the target is a
/// local community the actor is resolved (fetching within the budget if
/// needed) and the action is forwarded to the community's followers.
pub open spec fn spec_receive_delete_action(
    db: DbView,
    rem: RemoteView,
    object: ApubId,
    actor: ApubId,
    ws: WebsocketMessages,
    deleted: bool,
    delete_id: ApubId,
    undo_id: ApubId,
    cnt: RequestCounter,
) -> (Result<EffectsView, ActivityError>, DbView, RequestCounter) {
    if communities_has_apub(db.communities, object@) {
        let c = community_by_apub(db.communities, object@);
        if c.local {
            let m = spec_resolve_person(db, rem, actor@, cnt);
            match m.0 {
                Err(e) => (Err(e), m.1, m.2),
                Ok(pid) => {
                    let db2 = with_community_flag(m.1, c.id, TargetFlag::Deleted, deleted);
                    let fwd = Forward {
                        community_id: c.id,
                        activity: if deleted {
                            AnnouncableActivities::Delete(
                                spec_build_delete(actor, c.apub_id, object, None, delete_id),
                            )
                        } else {
                            AnnouncableActivities::UndoDelete(
                                spec_build_undo_delete(
                                    actor,
                                    c.apub_id,
                                    object,
                                    None,
                                    delete_id,
                                    undo_id,
                                ),
                            )
                        },
                    };
                    let note = Notification {
                        object_id: c.id,
                        op: ws.community,
                        websocket_id: None,
                        person_id: Some(pid),
                    };
                    (
                        Ok(EffectsView { notifications: seq![note], forwards: seq![fwd] }),
                        db2,
                        m.2,
                    )
                },
            }
        } else {
            let db2 = with_community_flag(db, c.id, TargetFlag::Deleted, deleted);
            let note = Notification {
                object_id: c.id,
                op: ws.community,
                websocket_id: None,
                person_id: None,
            };
            (
                Ok(
                    EffectsView {
                        notifications: seq![note],
                        forwards: Seq::<Forward>::empty(),
                    },
                ),
                db2,
                cnt,
            )
        }
    } else if posts_has_apub(db.posts, object@) {
        let p = post_by_apub(db.posts, object@);
        let db2 = with_post_flag(db, p.id, TargetFlag::Deleted, deleted);
        let note = Notification {
            object_id: p.id,
            op: ws.post,
            websocket_id: None,
            person_id: None,
        };
        (
            Ok(EffectsView { notifications: seq![note], forwards: Seq::<Forward>::empty() }),
            db2,
            cnt,
        )
    } else if comments_has_apub(db.comments, object@) {
        let cm = comment_by_apub(db.comments, object@);
        let db2 = with_comment_flag(db, cm.id, TargetFlag::Deleted, deleted);
        let note = Notification {
            object_id: cm.id,
            op: ws.comment,
            websocket_id: None,
            person_id: None,
        };
        (
            Ok(EffectsView { notifications: seq![note], forwards: Seq::<Forward>::empty() }),
            db2,
            cnt,
        )
    } else {
        (Err(ActivityError::UnresolvableObject), db, cnt)
    }
}

/// Applies a deletion (or its undo, per `deleted`) to whatever object the
/// identifier resolves to locally, and reports the side effects.
#[verifier::rlimit(100)]
pub fn receive_delete_action(
    db: &mut Database,
    remote: &RemoteServers,
    object: &ApubId,
    actor: &ApubId,
    ws: WebsocketMessages,
    deleted: bool,
    delete_id: ApubId,
    undo_id: ApubId,
    counter: &mut RequestCounter,
) -> (r: Result<Effects, ActivityError>)
    requires
        old(db)@.wf(),
        remote@.wf(),
    ensures
        final(db)@.wf(),
        ({
            let m = spec_receive_delete_action(
                old(db)@,
                remote@,
                *object,
                *actor,
                ws,
                deleted,
                delete_id,
                undo_id,
                *old(counter),
            );
            &&& final(db)@ == m.1
            &&& *final(counter) == m.2
            &&& match (r, m.0) {
                (Ok(e), Ok(ev)) => e@ == ev,
                (Err(a), Err(b)) => a == b,
                _ => false,
            }
        }),
{
    match db.read_by_apub_id(object) {
        None => Err(ActivityError::UnresolvableObject),
        Some(DeletableObjects::Community(cid)) => {
            proof {
                let j = choose|j: int|
                    0 <= j < db@.communities.len() && db@.communities[j].apub_id@ == object@
                        && db@.communities[j].id == cid;
                lemma_community_at_apub(db.communities@, j, object@);
            }
            let i = match find_community_by_id(&db.communities, cid) {
                Some(i) => i,
                None => {
                    return Err(ActivityError::UnresolvableObject);
                },
            };
            proof {
                lemma_community_at(db.communities@, i as int, cid);
                assert(db.communities@[i as int] == community_by_apub(db@.communities, object@));
            }
            let community_apub = db.communities[i].apub_id.clone();
            if db.communities[i].local {
                let pid = match get_or_fetch_and_upsert_person(db, remote, actor, counter) {
                    Ok(p) => p,
                    Err(e) => {
                        return Err(e);
                    },
                };
                match db.update_community(cid, TargetFlag::Deleted, deleted) {
                    Ok(()) => {},
                    Err(e) => {
                        proof {
                            assert(communities_has_id(db@.communities, cid));
                        }
                        return Err(e);
                    },
                }
                let activity = if deleted {
                    AnnouncableActivities::Delete(
                        build_delete(actor, &community_apub, object.clone(), None, delete_id),
                    )
                } else {
                    AnnouncableActivities::UndoDelete(
                        build_undo_delete(
                            actor,
                            &community_apub,
                            object.clone(),
                            None,
                            delete_id,
                            undo_id,
                        ),
                    )
                };
                let mut notifications: Vec<Notification> = Vec::new();
                notifications.push(
                    Notification {
                        object_id: cid,
                        op: ws.community,
                        websocket_id: None,
                        person_id: Some(pid),
                    },
                );
                let mut forwards: Vec<Forward> = Vec::new();
                forwards.push(Forward { community_id: cid, activity });
                let e = Effects { notifications, forwards };
                proof {
                    let m = spec_receive_delete_action(
                        old(db)@,
                        remote@,
                        *object,
                        *actor,
                        ws,
                        deleted,
                        delete_id,
                        undo_id,
                        *old(counter),
                    );
                    assert(e@.notifications =~= m.0->Ok_0.notifications);
                    assert(e@.forwards =~= m.0->Ok_0.forwards);
                    assert(e@ =~= m.0->Ok_0);
                }
                Ok(e)
            } else {
                match db.update_community(cid, TargetFlag::Deleted, deleted) {
                    Ok(()) => {},
                    Err(e) => {
                        return Err(e);
                    },
                }
                let mut notifications: Vec<Notification> = Vec::new();
                notifications.push(
                    Notification {
                        object_id: cid,
                        op: ws.community,
                        websocket_id: None,
                        person_id: None,
                    },
                );
                let e = Effects { notifications, forwards: Vec::new() };
                proof {
                    let m = spec_receive_delete_action(
                        old(db)@,
                        remote@,
                        *object,
                        *actor,
                        ws,
                        deleted,
                        delete_id,
                        undo_id,
                        *old(counter),
                    );
                    assert(e@.notifications =~= m.0->Ok_0.notifications);
                    assert(e@.forwards =~= m.0->Ok_0.forwards);
                    assert(e@ =~= m.0->Ok_0);
                }
                Ok(e)
            }
        },
        Some(DeletableObjects::Post(pid)) => {
            proof {
                let j = choose|j: int|
                    0 <= j < db@.posts.len() && db@.posts[j].apub_id@ == object@
                        && db@.posts[j].id == pid;
                lemma_post_at_apub(db.posts@, j, object@);
            }
            match db.update_post(pid, TargetFlag::Deleted, deleted) {
                Ok(()) => {},
                Err(e) => {
                    return Err(e);
                },
            }
            let mut notifications: Vec<Notification> = Vec::new();
            notifications.push(
                Notification { object_id: pid, op: ws.post, websocket_id: None, person_id: None },
            );
            let e = Effects { notifications, forwards: Vec::new() };
            proof {
                let m = spec_receive_delete_action(
                    old(db)@,
                    remote@,
                    *object,
                    *actor,
                    ws,
                    deleted,
                    delete_id,
                    undo_id,
                    *old(counter),
                );
                assert(e@.notifications =~= m.0->Ok_0.notifications);
                assert(e@.forwards =~= m.0->Ok_0.forwards);
                assert(e@ =~= m.0->Ok_0);
            }
            Ok(e)
        },
        Some(DeletableObjects::Comment(cmid)) => {
            proof {
                let j = choose|j: int|
                    0 <= j < db@.comments.len() && db@.comments[j].apub_id@ == object@
                        && db@.comments[j].id == cmid;
                lemma_comment_at_apub(db.comments@, j, object@);
            }
            match db.update_comment(cmid, TargetFlag::Deleted, deleted) {
                Ok(()) => {},
                Err(e) => {
                    return Err(e);
                },
            }
            let mut notifications: Vec<Notification> = Vec::new();
            notifications.push(
                Notification {
                    object_id: cmid,
                    op: ws.comment,
                    websocket_id: None,
                    person_id: None,
                },
            );
            let e = Effects { notifications, forwards: Vec::new() };
            proof {
                let m = spec_receive_delete_action(
                    old(db)@,
                    remote@,
                    *object,
                    *actor,
                    ws,
                    deleted,
                    delete_id,
                    undo_id,
                    *old(counter),
                );
                assert(e@.notifications =~= m.0->Ok_0.notifications);
                assert(e@.forwards =~= m.0->Ok_0.forwards);
                assert(e@ =~= m.0->Ok_0);
            }
            Ok(e)
        },
    }
}

// ---------------------------------------------------------------------------
// Applying a Delete with a summary: a moderator removal, with an audit record.
// ---------------------------------------------------------------------------

/// The outcome of `receive_remove_action`: the acting moderator is resolved
/// (it goes into the audit record), the `removed` flag is set, one
/// moderation-log entry is written, and one notification is emitted. A
/// removal of a local community cannot arrive over federation: only the local
/// admins decide that, so it is rejected.
pub open spec fn spec_receive_remove_action(
    db: DbView,
    rem: RemoteView,
    object: ApubId,
    actor: ApubId,
    reason: Option<String>,
    cnt: RequestCounter,
) -> (Result<EffectsView, ActivityError>, DbView, RequestCounter) {
    if communities_has_apub(db.communities, object@) {
        let c = community_by_apub(db.communities, object@);
        if c.local {
            (Err(ActivityError::NotAuthorized), db, cnt)
        } else {
            let m = spec_resolve_person(db, rem, actor@, cnt);
            match m.0 {
                Err(e) => (Err(e), m.1, m.2),
                Ok(pid) => {
                    let db2 = with_community_flag(m.1, c.id, TargetFlag::Removed, true);
                    let db3 = with_mod_log(
                        db2,
                        ModLogEntry {
                            mod_person_id: pid,
                            object: DeletableObjects::Community(c.id),
                            removed: true,
                            reason: reason,
                            expires: None,
                        },
                    );
                    let note = Notification {
                        object_id: c.id,
                        op: UserOperationCrud::RemoveCommunity,
                        websocket_id: None,
                        person_id: None,
                    };
                    (
                        Ok(
                            EffectsView {
                                notifications: seq![note],
                                forwards: Seq::<Forward>::empty(),
                            },
                        ),
                        db3,
                        m.2,
                    )
                },
            }
        }
    } else if posts_has_apub(db.posts, object@) {
        let p = post_by_apub(db.posts, object@);
        let m = spec_resolve_person(db, rem, actor@, cnt);
        match m.0 {
            Err(e) => (Err(e), m.1, m.2),
            Ok(pid) => {
                let db2 = with_post_flag(m.1, p.id, TargetFlag::Removed, true);
                let db3 = with_mod_log(
                    db2,
                    ModLogEntry {
                        mod_person_id: pid,
                        object: DeletableObjects::Post(p.id),
                        removed: true,
                        reason: reason,
                        expires: None,
                    },
                );
                let note = Notification {
                    object_id: p.id,
                    op: UserOperationCrud::RemovePost,
                    websocket_id: None,
                    person_id: None,
                };
                (
                    Ok(
                        EffectsView {
                            notifications: seq![note],
                            forwards: Seq::<Forward>::empty(),
                        },
                    ),
                    db3,
                    m.2,
                )
            },
        }
    } else if comments_has_apub(db.comments, object@) {
        let cm = comment_by_apub(db.comments, object@);
        let m = spec_resolve_person(db, rem, actor@, cnt);
        match m.0 {
            Err(e) => (Err(e), m.1, m.2),
            Ok(pid) => {
                let db2 = with_comment_flag(m.1, cm.id, TargetFlag::Removed, true);
                let db3 = with_mod_log(
                    db2,
                    ModLogEntry {
                        mod_person_id: pid,
                        object: DeletableObjects::Comment(cm.id),
                        removed: true,
                        reason: reason,
                        expires: None,
                    },
                );
                let note = Notification {
                    object_id: cm.id,
                    op: UserOperationCrud::RemoveComment,
                    websocket_id: None,
                    person_id: None,
                };
                (
                    Ok(
                        EffectsView {
                            notifications: seq![note],
                            forwards: Seq::<Forward>::empty(),
                        },
                    ),
                    db3,
                    m.2,
                )
            },
        }
    } else {
        (Err(ActivityError::UnresolvableObject), db, cnt)
    }
}

/// Applies a moderator removal to whatever object the identifier resolves to
/// locally: sets `removed`, writes the audit record, emits one notification.
#[verifier::rlimit(100)]
pub fn receive_remove_action(
    db: &mut Database,
    remote: &RemoteServers,
    object: &ApubId,
    actor: &ApubId,
    reason: Option<String>,
    counter: &mut RequestCounter,
) -> (r: Result<Effects, ActivityError>)
    requires
        old(db)@.wf(),
        remote@.wf(),
    ensures
        final(db)@.wf(),
        ({
            let m = spec_receive_remove_action(
                old(db)@,
                remote@,
                *object,
                *actor,
                reason,
                *old(counter),
            );
            &&& final(db)@ == m.1
            &&& *final(counter) == m.2
            &&& match (r, m.0) {
                (Ok(e), Ok(ev)) => e@ == ev,
                (Err(a), Err(b)) => a == b,
                _ => false,
            }
        }),
{
    match db.read_by_apub_id(object) {
        None => Err(ActivityError::UnresolvableObject),
        Some(DeletableObjects::Community(cid)) => {
            proof {
                let j = choose|j: int|
                    0 <= j < db@.communities.len() && db@.communities[j].apub_id@ == object@
                        && db@.communities[j].id == cid;
                lemma_community_at_apub(db.communities@, j, object@);
            }
            let i = match find_community_by_id(&db.communities, cid) {
                Some(i) => i,
                None => {
                    return Err(ActivityError::UnresolvableObject);
                },
            };
            proof {
                lemma_community_at(db.communities@, i as int, cid);
                assert(db.communities@[i as int] == community_by_apub(db@.communities, object@));
            }
            if db.communities[i].local {
                return Err(ActivityError::NotAuthorized);
            }
            let pid = match get_or_fetch_and_upsert_person(db, remote, actor, counter) {
                Ok(p) => p,
                Err(e) => {
                    return Err(e);
                },
            };
            match db.update_community(cid, TargetFlag::Removed, true) {
                Ok(()) => {},
                Err(e) => {
                    proof {
                        assert(communities_has_id(db@.communities, cid));
                    }
                    return Err(e);
                },
            }
            db.add_mod_log(
                ModLogEntry {
                    mod_person_id: pid,
                    object: DeletableObjects::Community(cid),
                    removed: true,
                    reason,
                    expires: None,
                },
            );
            let mut notifications: Vec<Notification> = Vec::new();
            notifications.push(
                Notification {
                    object_id: cid,
                    op: UserOperationCrud::RemoveCommunity,
                    websocket_id: None,
                    person_id: None,
                },
            );
            let e = Effects { notifications, forwards: Vec::new() };
            proof {
                let m = spec_receive_remove_action(
                    old(db)@,
                    remote@,
                    *object,
                    *actor,
                    reason,
                    *old(counter),
                );
                assert(e@.notifications =~= m.0->Ok_0.notifications);
                assert(e@.forwards =~= m.0->Ok_0.forwards);
                assert(e@ =~= m.0->Ok_0);
            }
            Ok(e)
        },
        Some(DeletableObjects::Post(post_id)) => {
            proof {
                let j = choose|j: int|
                    0 <= j < db@.posts.len() && db@.posts[j].apub_id@ == object@
                        && db@.posts[j].id == post_id;
                lemma_post_at_apub(db.posts@, j, object@);
            }
            let pid = match get_or_fetch_and_upsert_person(db, remote, actor, counter) {
                Ok(p) => p,
                Err(e) => {
                    return Err(e);
                },
            };
            match db.update_post(post_id, TargetFlag::Removed, true) {
                Ok(()) => {},
                Err(e) => {
                    proof {
                        assert(crate::db::posts_has_id(db@.posts, post_id));
                    }
                    return Err(e);
                },
            }
            db.add_mod_log(
                ModLogEntry {
                    mod_person_id: pid,
                    object: DeletableObjects::Post(post_id),
                    removed: true,
                    reason,
                    expires: None,
                },
            );
            let mut notifications: Vec<Notification> = Vec::new();
            notifications.push(
                Notification {
                    object_id: post_id,
                    op: UserOperationCrud::RemovePost,
                    websocket_id: None,
                    person_id: None,
                },
            );
            let e = Effects { notifications, forwards: Vec::new() };
            proof {
                let m = spec_receive_remove_action(
                    old(db)@,
                    remote@,
                    *object,
                    *actor,
                    reason,
                    *old(counter),
                );
                assert(e@.notifications =~= m.0->Ok_0.notifications);
                assert(e@.forwards =~= m.0->Ok_0.forwards);
                assert(e@ =~= m.0->Ok_0);
            }
            Ok(e)
        },
        Some(DeletableObjects::Comment(cmid)) => {
            proof {
                let j = choose|j: int|
                    0 <= j < db@.comments.len() && db@.comments[j].apub_id@ == object@
                        && db@.comments[j].id == cmid;
                lemma_comment_at_apub(db.comments@, j, object@);
            }
            let pid = match get_or_fetch_and_upsert_person(db, remote, actor, counter) {
                Ok(p) => p,
                Err(e) => {
                    return Err(e);
                },
            };
            match db.update_comment(cmid, TargetFlag::Removed, true) {
                Ok(()) => {},
                Err(e) => {
                    proof {
                        assert(crate::db::comments_has_id(db@.comments, cmid));
                    }
                    return Err(e);
                },
            }
            db.add_mod_log(
                ModLogEntry {
                    mod_person_id: pid,
                    object: DeletableObjects::Comment(cmid),
                    removed: true,
                    reason,
                    expires: None,
                },
            );
            let mut notifications: Vec<Notification> = Vec::new();
            notifications.push(
                Notification {
                    object_id: cmid,
                    op: UserOperationCrud::RemoveComment,
                    websocket_id: None,
                    person_id: None,
                },
            );
            let e = Effects { notifications, forwards: Vec::new() };
            proof {
                let m = spec_receive_remove_action(
                    old(db)@,
                    remote@,
                    *object,
                    *actor,
                    reason,
                    *old(counter),
                );
                assert(e@.notifications =~= m.0->Ok_0.notifications);
                assert(e@.forwards =~= m.0->Ok_0.forwards);
                assert(e@ =~= m.0->Ok_0);
            }
            Ok(e)
        },
    }
}

// ---------------------------------------------------------------------------
// Undoing a removal.
// ---------------------------------------------------------------------------

/// The outcome of `UndoDelete::receive_undo_remove_action`: clears `removed`
/// and emits one Edit-tagged notification. Restoring a local community over
/// federation is rejected: only a local admin may undo a local removal
/// decision.
pub open spec fn spec_receive_undo_remove(db: DbView, object: ApubId) -> (
    Result<EffectsView, ActivityError>,
    DbView,
) {
    if communities_has_apub(db.communities, object@) {
        let c = community_by_apub(db.communities, object@);
        if c.local {
            (Err(ActivityError::NotAuthorized), db)
        } else {
            let note = Notification {
                object_id: c.id,
                op: UserOperationCrud::EditCommunity,
                websocket_id: None,
                person_id: None,
            };
            (
                Ok(
                    EffectsView {
                        notifications: seq![note],
                        forwards: Seq::<Forward>::empty(),
                    },
                ),
                with_community_flag(db, c.id, TargetFlag::Removed, false),
            )
        }
    } else if posts_has_apub(db.posts, object@) {
        let p = post_by_apub(db.posts, object@);
        let note = Notification {
            object_id: p.id,
            op: UserOperationCrud::EditPost,
            websocket_id: None,
            person_id: None,
        };
        (
            Ok(EffectsView { notifications: seq![note], forwards: Seq::<Forward>::empty() }),
            with_post_flag(db, p.id, TargetFlag::Removed, false),
        )
    } else if comments_has_apub(db.comments, object@) {
        let cm = comment_by_apub(db.comments, object@);
        let note = Notification {
            object_id: cm.id,
            op: UserOperationCrud::EditComment,
            websocket_id: None,
            person_id: None,
        };
        (
            Ok(EffectsView { notifications: seq![note], forwards: Seq::<Forward>::empty() }),
            with_comment_flag(db, cm.id, TargetFlag::Removed, false),
        )
    } else {
        (Err(ActivityError::UnresolvableObject), db)
    }
}

impl UndoDelete {
    /// Restores an object from a moderator removal.
    #[verifier::rlimit(100)]
    pub fn receive_undo_remove_action(db: &mut Database, object: &ApubId) -> (r: Result<
        Effects,
        ActivityError,
    >)
        requires
            old(db)@.wf(),
        ensures
            final(db)@.wf(),
            ({
                let m = spec_receive_undo_remove(old(db)@, *object);
                &&& final(db)@ == m.1
                &&& match (r, m.0) {
                    (Ok(e), Ok(ev)) => e@ == ev,
                    (Err(a), Err(b)) => a == b,
                    _ => false,
                }
            }),
    {
        match db.read_by_apub_id(object) {
            None => Err(ActivityError::UnresolvableObject),
            Some(DeletableObjects::Community(cid)) => {
                proof {
                    let j = choose|j: int|
                        0 <= j < db@.communities.len() && db@.communities[j].apub_id@ == object@
                            && db@.communities[j].id == cid;
                    lemma_community_at_apub(db.communities@, j, object@);
                }
                let i = match find_community_by_id(&db.communities, cid) {
                    Some(i) => i,
                    None => {
                        return Err(ActivityError::UnresolvableObject);
                    },
                };
                proof {
                    lemma_community_at(db.communities@, i as int, cid);
                    assert(db.communities@[i as int] == community_by_apub(
                        db@.communities,
                        object@,
                    ));
                }
                if db.communities[i].local {
                    return Err(ActivityError::NotAuthorized);
                }
                match db.update_community(cid, TargetFlag::Removed, false) {
                    Ok(()) => {},
                    Err(e) => {
                        return Err(e);
                    },
                }
                let mut notifications: Vec<Notification> = Vec::new();
                notifications.push(
                    Notification {
                        object_id: cid,
                        op: UserOperationCrud::EditCommunity,
                        websocket_id: None,
                        person_id: None,
                    },
                );
                let e = Effects { notifications, forwards: Vec::new() };
                proof {
                    let m = spec_receive_undo_remove(old(db)@, *object);
                    assert(e@.notifications =~= m.0->Ok_0.notifications);
                    assert(e@.forwards =~= m.0->Ok_0.forwards);
                    assert(e@ =~= m.0->Ok_0);
                }
                Ok(e)
            },
            Some(DeletableObjects::Post(post_id)) => {
                proof {
                    let j = choose|j: int|
                        0 <= j < db@.posts.len() && db@.posts[j].apub_id@ == object@
                            && db@.posts[j].id == post_id;
                    lemma_post_at_apub(db.posts@, j, object@);
                }
                match db.update_post(post_id, TargetFlag::Removed, false) {
                    Ok(()) => {},
                    Err(e) => {
                        return Err(e);
                    },
                }
                let mut notifications: Vec<Notification> = Vec::new();
                notifications.push(
                    Notification {
                        object_id: post_id,
                        op: UserOperationCrud::EditPost,
                        websocket_id: None,
                        person_id: None,
                    },
                );
                let e = Effects { notifications, forwards: Vec::new() };
                proof {
                    let m = spec_receive_undo_remove(old(db)@, *object);
                    assert(e@.notifications =~= m.0->Ok_0.notifications);
                    assert(e@.forwards =~= m.0->Ok_0.forwards);
                    assert(e@ =~= m.0->Ok_0);
                }
                Ok(e)
            },
            Some(DeletableObjects::Comment(cmid)) => {
                proof {
                    let j = choose|j: int|
                        0 <= j < db@.comments.len() && db@.comments[j].apub_id@ == object@
                            && db@.comments[j].id == cmid;
                    lemma_comment_at_apub(db.comments@, j, object@);
                }
                match db.update_comment(cmid, TargetFlag::Removed, false) {
                    Ok(()) => {},
                    Err(e) => {
                        return Err(e);
                    },
                }
                let mut notifications: Vec<Notification> = Vec::new();
                notifications.push(
                    Notification {
                        object_id: cmid,
                        op: UserOperationCrud::EditComment,
                        websocket_id: None,
                        person_id: None,
                    },
                );
                let e = Effects { notifications, forwards: Vec::new() };
                proof {
                    let m = spec_receive_undo_remove(old(db)@, *object);
                    assert(e@.notifications =~= m.0->Ok_0.notifications);
                    assert(e@.forwards =~= m.0->Ok_0.forwards);
                    assert(e@ =~= m.0->Ok_0);
                }
                Ok(e)
            },
        }
    }
}

// ---------------------------------------------------------------------------
// What receiving each activity shape does.
// ---------------------------------------------------------------------------

/// The notification tags a Delete uses.
pub open spec fn ws_delete_messages() -> WebsocketMessages {
    WebsocketMessages {
        community: UserOperationCrud::DeleteCommunity,
        post: UserOperationCrud::DeletePost,
        comment: UserOperationCrud::DeleteComment,
    }
}

/// The notification tags an Undo(Delete) uses.
pub open spec fn ws_edit_messages() -> WebsocketMessages {
    WebsocketMessages {
        community: UserOperationCrud::EditCommunity,
        post: UserOperationCrud::EditPost,
        comment: UserOperationCrud::EditComment,
    }
}

pub open spec fn spec_delete_receive(
    d: Delete,
    db: DbView,
    rem: RemoteView,
    delete_id: ApubId,
    undo_id: ApubId,
    cnt: RequestCounter,
) -> (Result<EffectsView, ActivityError>, DbView, RequestCounter) {
    if d.summary is Some {
        spec_receive_remove_action(db, rem, d.object, d.common.actor, d.summary, cnt)
    } else {
        spec_receive_delete_action(
            db,
            rem,
            d.object,
            d.common.actor,
            ws_delete_messages(),
            true,
            delete_id,
            undo_id,
            cnt,
        )
    }
}

impl Delete {
    /// Applies a verified Delete: a removal when it carries a summary, a
    /// self-deletion otherwise. The caller supplies fresh activity ids for
    /// the forward that a deletion of a local community produces.
    pub fn receive(
        &self,
        db: &mut Database,
        remote: &RemoteServers,
        delete_id: ApubId,
        undo_id: ApubId,
        counter: &mut RequestCounter,
    ) -> (r: Result<Effects, ActivityError>)
        requires
            old(db)@.wf(),
            remote@.wf(),
        ensures
            final(db)@.wf(),
            ({
                let m = spec_delete_receive(
                    *self,
                    old(db)@,
                    remote@,
                    delete_id,
                    undo_id,
                    *old(counter),
                );
                &&& final(db)@ == m.1
                &&& *final(counter) == m.2
                &&& match (r, m.0) {
                    (Ok(e), Ok(ev)) => e@ == ev,
                    (Err(a), Err(b)) => a == b,
                    _ => false,
                }
            }),
    {
        match &self.summary {
            Some(s) => {
                let reason = Some(s.clone());
                receive_remove_action(db, remote, &self.object, &self.common.actor, reason, counter)
            },
            None => receive_delete_action(
                db,
                remote,
                &self.object,
                &self.common.actor,
                WebsocketMessages {
                    community: UserOperationCrud::DeleteCommunity,
                    post: UserOperationCrud::DeletePost,
                    comment: UserOperationCrud::DeleteComment,
                },
                true,
                delete_id,
                undo_id,
                counter,
            ),
        }
    }
}

pub open spec fn spec_undo_delete_receive(
    u: UndoDelete,
    db: DbView,
    rem: RemoteView,
    delete_id: ApubId,
    undo_id: ApubId,
    cnt: RequestCounter,
) -> (Result<EffectsView, ActivityError>, DbView, RequestCounter) {
    if u.object.summary is Some {
        let m = spec_receive_undo_remove(db, u.object.object);
        (m.0, m.1, cnt)
    } else {
        spec_receive_delete_action(
            db,
            rem,
            u.object.object,
            u.common.actor,
            ws_edit_messages(),
            false,
            delete_id,
            undo_id,
            cnt,
        )
    }
}

impl UndoDelete {
    /// Applies a verified Undo(Delete): restores from a removal when the
    /// wrapped Delete carries a summary, from a self-deletion otherwise.
    pub fn receive(
        &self,
        db: &mut Database,
        remote: &RemoteServers,
        delete_id: ApubId,
        undo_id: ApubId,
        counter: &mut RequestCounter,
    ) -> (r: Result<Effects, ActivityError>)
        requires
            old(db)@.wf(),
            remote@.wf(),
        ensures
            final(db)@.wf(),
            ({
                let m = spec_undo_delete_receive(
                    *self,
                    old(db)@,
                    remote@,
                    delete_id,
                    undo_id,
                    *old(counter),
                );
                &&& final(db)@ == m.1
                &&& *final(counter) == m.2
                &&& match (r, m.0) {
                    (Ok(e), Ok(ev)) => e@ == ev,
                    (Err(a), Err(b)) => a == b,
                    _ => false,
                }
            }),
    {
        if self.object.summary.is_some() {
            UndoDelete::receive_undo_remove_action(db, &self.object.object)
        } else {
            receive_delete_action(
                db,
                remote,
                &self.object.object,
                &self.common.actor,
                WebsocketMessages {
                    community: UserOperationCrud::EditCommunity,
                    post: UserOperationCrud::EditPost,
                    comment: UserOperationCrud::EditComment,
                },
                false,
                delete_id,
                undo_id,
                counter,
            )
        }
    }
}

/// The outcome of `DeleteCommunity::receive` when the community is already
/// known locally: a remote moderator deleted a local community, so the server
/// applies the deletion and relays a synthesized Delete to its own follower
/// set, crediting the resolved acting person in the notification.
pub open spec fn spec_delete_community_receive_known(
    d: DeleteCommunity,
    db: DbView,
    rem: RemoteView,
    forward_id: ApubId,
    cnt: RequestCounter,
) -> (Result<EffectsView, ActivityError>, DbView, RequestCounter) {
    let c = community_by_apub(db.communities, d.object@);
    let m = spec_resolve_person(db, rem, d.common.actor@, cnt);
    match m.0 {
        Err(e) => (Err(e), m.1, m.2),
        Ok(pid) => {
            let db2 = with_community_flag(m.1, c.id, TargetFlag::Deleted, true);
            let fwd = Forward {
                community_id: c.id,
                activity: AnnouncableActivities::Delete(
                    spec_build_delete(d.common.actor, c.apub_id, d.object, None, forward_id),
                ),
            };
            let note = Notification {
                object_id: c.id,
                op: UserOperationCrud::DeleteCommunity,
                websocket_id: None,
                person_id: Some(pid),
            };
            (
                Ok(EffectsView { notifications: seq![note], forwards: seq![fwd] }),
                db2,
                m.2,
            )
        },
    }
}

impl DeleteCommunity {
    /// Applies a verified community Delete. When the community is known
    /// locally the deletion is applied and relayed to the followers; when it
    /// is not, the remote record is refetched, mirrored locally, and the
    /// mirror is marked deleted.
    #[verifier::rlimit(100)]
    pub fn receive(
        &self,
        db: &mut Database,
        remote: &RemoteServers,
        forward_id: ApubId,
        counter: &mut RequestCounter,
    ) -> (r: Result<Effects, ActivityError>)
        requires
            old(db)@.wf(),
            remote@.wf(),
        ensures
            final(db)@.wf(),
            final(counter).limit == old(counter).limit,
            communities_has_apub(old(db)@.communities, self.object@) ==> ({
                let m = spec_delete_community_receive_known(
                    *self,
                    old(db)@,
                    remote@,
                    forward_id,
                    *old(counter),
                );
                &&& final(db)@ == m.1
                &&& *final(counter) == m.2
                &&& match (r, m.0) {
                    (Ok(e), Ok(ev)) => e@ == ev,
                    (Err(a), Err(b)) => a == b,
                    _ => false,
                }
            }),
            !communities_has_apub(old(db)@.communities, self.object@) && !(old(counter).used < old(
                counter,
            ).limit) ==> r is Err && final(db)@ == old(db)@ && *final(counter) == *old(counter),
            !communities_has_apub(old(db)@.communities, self.object@) && old(counter).used < old(
                counter,
            ).limit ==> final(counter).used == old(counter).used + 1 && {
                let rem_has = communities_has_apub(remote@.communities, self.object@);
                &&& (!rem_has ==> r == Err::<Effects, ActivityError>(
                    ActivityError::UnresolvableObject,
                ) && final(db)@ == old(db)@)
                &&& (rem_has && old(db)@.next_id == u64::MAX ==> r == Err::<
                    Effects,
                    ActivityError,
                >(ActivityError::StorageError) && final(db)@ == old(db)@)
                &&& (rem_has && old(db)@.next_id < u64::MAX ==> r is Ok
                    && exists|c2: Community|
                    crate::remote::mirrors_community(
                        c2,
                        old(db)@.next_id,
                        community_by_apub(remote@.communities, self.object@),
                    ) && final(db)@ == with_community_flag(
                        DbView {
                            next_id: (old(db)@.next_id + 1) as u64,
                            communities: old(db)@.communities.push(c2),
                            ..old(db)@
                        },
                        old(db)@.next_id,
                        TargetFlag::Deleted,
                        true,
                    ) && (r matches Ok(e) ==> e@ == EffectsView {
                        notifications: seq![
                            Notification {
                                object_id: old(db)@.next_id,
                                op: UserOperationCrud::DeleteCommunity,
                                websocket_id: None,
                                person_id: None,
                            },
                        ],
                        forwards: Seq::<Forward>::empty(),
                    }))
            },
    {
        match crate::db::find_community_by_apub(&db.communities, &self.object) {
            Some(i) => {
                proof {
                    lemma_community_at_apub(db.communities@, i as int, self.object@);
                }
                let cid = db.communities[i].id;
                let community_apub = db.communities[i].apub_id.clone();
                let pid = match get_or_fetch_and_upsert_person(
                    db,
                    remote,
                    &self.common.actor,
                    counter,
                ) {
                    Ok(p) => p,
                    Err(e) => {
                        return Err(e);
                    },
                };
                match db.update_community(cid, TargetFlag::Deleted, true) {
                    Ok(()) => {},
                    Err(e) => {
                        proof {
                            assert(communities_has_id(db@.communities, cid));
                        }
                        return Err(e);
                    },
                }
                let activity = AnnouncableActivities::Delete(
                    build_delete(
                        &self.common.actor,
                        &community_apub,
                        self.object.clone(),
                        None,
                        forward_id,
                    ),
                );
                let mut notifications: Vec<Notification> = Vec::new();
                notifications.push(
                    Notification {
                        object_id: cid,
                        op: UserOperationCrud::DeleteCommunity,
                        websocket_id: None,
                        person_id: Some(pid),
                    },
                );
                let mut forwards: Vec<Forward> = Vec::new();
                forwards.push(Forward { community_id: cid, activity });
                let e = Effects { notifications, forwards };
                proof {
                    let m = spec_delete_community_receive_known(
                        *self,
                        old(db)@,
                        remote@,
                        forward_id,
                        *old(counter),
                    );
                    assert(e@.notifications =~= m.0->Ok_0.notifications);
                    assert(e@.forwards =~= m.0->Ok_0.forwards);
                    assert(e@ =~= m.0->Ok_0);
                }
                Ok(e)
            },
            None => {
                let cid = match crate::remote::get_or_fetch_and_upsert_community(
                    db,
                    remote,
                    &self.object,
                    counter,
                ) {
                    Ok(c) => c,
                    Err(e) => {
                        return Err(e);
                    },
                };
                proof {
                    let c2 = choose|c2: Community|
                        crate::remote::mirrors_community(
                            c2,
                            old(db)@.next_id,
                            community_by_apub(remote@.communities, self.object@),
                        ) && db@.communities == old(db)@.communities.push(c2);
                    assert(db@.communities[old(db)@.communities.len() as int] == c2);
                    assert(communities_has_id(db@.communities, cid));
                    assert(db@ =~= DbView {
                        next_id: (old(db)@.next_id + 1) as u64,
                        communities: old(db)@.communities.push(c2),
                        ..old(db)@
                    });
                }
                match db.update_community(cid, TargetFlag::Deleted, true) {
                    Ok(()) => {},
                    Err(e) => {
                        return Err(e);
                    },
                }
                let mut notifications: Vec<Notification> = Vec::new();
                notifications.push(
                    Notification {
                        object_id: cid,
                        op: UserOperationCrud::DeleteCommunity,
                        websocket_id: None,
                        person_id: None,
                    },
                );
                let e = Effects { notifications, forwards: Vec::new() };
                proof {
                    assert(e@.notifications =~= seq![
                        Notification {
                            object_id: old(db)@.next_id,
                            op: UserOperationCrud::DeleteCommunity,
                            websocket_id: None,
                            person_id: None,
                        },
                    ]);
                    assert(e@.forwards =~= Seq::<Forward>::empty());
                    assert(e@ =~= EffectsView {
                        notifications: seq![
                            Notification {
                                object_id: old(db)@.next_id,
                                op: UserOperationCrud::DeleteCommunity,
                                websocket_id: None,
                                person_id: None,
                            },
                        ],
                        forwards: Seq::<Forward>::empty(),
                    });
                }
                Ok(e)
            },
        }
    }
}

} // verus!
