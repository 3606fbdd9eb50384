//! The local API side of community deletion: a logged-in local user deletes
//! their own community (top moderator only) or an admin removes one. Both
//! apply the storage transition, emit one notification, and package the
//! corresponding activity for the community's followers. The caller has
//! already authenticated the user and supplies fresh activity ids.

use vstd::prelude::*;
use crate::ids::ApubId;
use crate::model::{
    Community, DeletableObjects, ModLogEntry, Notification, TargetFlag, UserOperationCrud,
};
use crate::db::{
    Database, DbView, communities_has_id, community_by_id, find_community_by_id,
    find_person_by_id, lemma_community_at, lemma_person_at, persons_has_id, person_by_id,
    with_community_flag, with_mod_log,
};
use crate::deletion::{
    AnnouncableActivities, Effects, EffectsView, Forward, build_delete, build_undo_delete,
    spec_build_delete, spec_build_undo_delete,
};
use crate::activities::PublicUrl;
use crate::ActivityError;

verus! {

/// The request to delete (or restore, per `deleted`) one's own community.
pub struct DeleteCommunity {
    pub community_id: u64,
    pub deleted: bool,
}

/// The request to remove (or restore, per `removed`) a community as admin,
/// with the reason and optional expiry recorded in the moderation log.
pub struct RemoveCommunity {
    pub community_id: u64,
    pub removed: bool,
    pub reason: Option<String>,
    pub expires: Option<i64>,
}

/// The outcome of `DeleteCommunity::perform`: only the top moderator (index 0
/// of the moderator list) may self-delete a community; on success the flag is
/// written, one notification credits the actor, and a Delete (or, when
/// restoring, an Undo(Delete)) is packaged for the followers.
pub open spec fn spec_api_delete_community(
    req: DeleteCommunity,
    db: DbView,
    actor_person_id: u64,
    websocket_id: Option<u64>,
    delete_id: ApubId,
    undo_id: ApubId,
) -> (Result<EffectsView, ActivityError>, DbView) {
    if !persons_has_id(db.persons, actor_person_id) {
        (Err(ActivityError::NotAuthorized), db)
    } else if !communities_has_id(db.communities, req.community_id) {
        (Err(ActivityError::StorageError), db)
    } else {
        let c = community_by_id(db.communities, req.community_id);
        if c.moderators@.len() == 0 || c.moderators@[0] != actor_person_id {
            (Err(ActivityError::NotAuthorized), db)
        } else {
            let p = person_by_id(db.persons, actor_person_id);
            let db2 = with_community_flag(db, req.community_id, TargetFlag::Deleted, req.deleted);
            let fwd = Forward {
                community_id: req.community_id,
                activity: if req.deleted {
                    AnnouncableActivities::Delete(
                        spec_build_delete(p.apub_id, c.apub_id, c.apub_id, None, delete_id),
                    )
                } else {
                    AnnouncableActivities::UndoDelete(
                        spec_build_undo_delete(
                            p.apub_id,
                            c.apub_id,
                            c.apub_id,
                            None,
                            delete_id,
                            undo_id,
                        ),
                    )
                },
            };
            let note = Notification {
                object_id: req.community_id,
                op: UserOperationCrud::DeleteCommunity,
                websocket_id: websocket_id,
                person_id: Some(actor_person_id),
            };
            (Ok(EffectsView { notifications: seq![note], forwards: seq![fwd] }), db2)
        }
    }
}

impl DeleteCommunity {
    /// Deletes (or restores) the community, provided the acting person is its
    /// top moderator.
    #[verifier::rlimit(100)]
    pub fn perform(
        &self,
        db: &mut Database,
        actor_person_id: u64,
        websocket_id: Option<u64>,
        delete_id: ApubId,
        undo_id: ApubId,
    ) -> (r: Result<Effects, ActivityError>)
        requires
            old(db)@.wf(),
        ensures
            final(db)@.wf(),
            ({
                let m = spec_api_delete_community(
                    *self,
                    old(db)@,
                    actor_person_id,
                    websocket_id,
                    delete_id,
                    undo_id,
                );
                &&& final(db)@ == m.1
                &&& match (r, m.0) {
                    (Ok(e), Ok(ev)) => e@ == ev,
                    (Err(a), Err(b)) => a == b,
                    _ => false,
                }
            }),
    {
        let pi = match find_person_by_id(&db.persons, actor_person_id) {
            Some(i) => i,
            None => {
                return Err(ActivityError::NotAuthorized);
            },
        };
        proof {
            lemma_person_at(db.persons@, pi as int, actor_person_id);
        }
        let ci = match find_community_by_id(&db.communities, self.community_id) {
            Some(i) => i,
            None => {
                return Err(ActivityError::StorageError);
            },
        };
        proof {
            lemma_community_at(db.communities@, ci as int, self.community_id);
        }
        if db.communities[ci].moderators.len() == 0 {
            return Err(ActivityError::NotAuthorized);
        }
        if db.communities[ci].moderators[0] != actor_person_id {
            return Err(ActivityError::NotAuthorized);
        }
        let community_apub = db.communities[ci].apub_id.clone();
        let actor_apub = db.persons[pi].apub_id.clone();
        match db.update_community(self.community_id, TargetFlag::Deleted, self.deleted) {
            Ok(()) => {},
            Err(e) => {
                return Err(e);
            },
        }
        let activity = if self.deleted {
            AnnouncableActivities::Delete(
                build_delete(&actor_apub, &community_apub, community_apub.clone(), None, delete_id),
            )
        } else {
            AnnouncableActivities::UndoDelete(
                build_undo_delete(
                    &actor_apub,
                    &community_apub,
                    community_apub.clone(),
                    None,
                    delete_id,
                    undo_id,
                ),
            )
        };
        let mut notifications: Vec<Notification> = Vec::new();
        notifications.push(
            Notification {
                object_id: self.community_id,
                op: UserOperationCrud::DeleteCommunity,
                websocket_id,
                person_id: Some(actor_person_id),
            },
        );
        let mut forwards: Vec<Forward> = Vec::new();
        forwards.push(Forward { community_id: self.community_id, activity });
        let e = Effects { notifications, forwards };
        proof {
            let m = spec_api_delete_community(
                *self,
                old(db)@,
                actor_person_id,
                websocket_id,
                delete_id,
                undo_id,
            );
            assert(e@.notifications =~= m.0->Ok_0.notifications);
            assert(e@.forwards =~= m.0->Ok_0.forwards);
            assert(e@ =~= m.0->Ok_0);
        }
        Ok(e)
    }
}

/// The view of the reason text an outbound removal carries: the given reason,
/// or empty where none was given.
pub open spec fn spec_reason_text(r: Option<String>) -> Seq<char> {
    match r {
        Some(s) => s@,
        None => Seq::empty(),
    }
}

impl RemoveCommunity {
    /// Removes (or restores) the community as an admin action: only an admin
    /// may remove a community. On success the `removed` flag is written, one
    /// moderation-log entry records the action with its reason and optional
    /// expiry, one notification credits the actor, and a Delete carrying the
    /// reason as its summary (or its Undo, when restoring) is packaged for
    /// the followers.
    #[verifier::rlimit(100)]
    pub fn perform(
        &self,
        db: &mut Database,
        actor_person_id: u64,
        websocket_id: Option<u64>,
        delete_id: ApubId,
        undo_id: ApubId,
    ) -> (r: Result<Effects, ActivityError>)
        requires
            old(db)@.wf(),
        ensures
            final(db)@.wf(),
            r is Ok <==> persons_has_id(old(db)@.persons, actor_person_id) && person_by_id(
                old(db)@.persons,
                actor_person_id,
            ).admin && communities_has_id(old(db)@.communities, self.community_id),
            !persons_has_id(old(db)@.persons, actor_person_id) ==> r == Err::<
                Effects,
                ActivityError,
            >(ActivityError::NotAuthorized),
            persons_has_id(old(db)@.persons, actor_person_id) && !person_by_id(
                old(db)@.persons,
                actor_person_id,
            ).admin ==> r == Err::<Effects, ActivityError>(ActivityError::NotAuthorized),
            persons_has_id(old(db)@.persons, actor_person_id) && person_by_id(
                old(db)@.persons,
                actor_person_id,
            ).admin && !communities_has_id(old(db)@.communities, self.community_id) ==> r == Err::<
                Effects,
                ActivityError,
            >(ActivityError::StorageError),
            r is Err ==> final(db)@ == old(db)@,
            r is Ok ==> final(db)@ == with_mod_log(
                with_community_flag(old(db)@, self.community_id, TargetFlag::Removed, self.removed),
                ModLogEntry {
                    mod_person_id: actor_person_id,
                    object: DeletableObjects::Community(self.community_id),
                    removed: self.removed,
                    reason: self.reason,
                    expires: self.expires,
                },
            ),
            r matches Ok(e) ==> ({
                let c = community_by_id(old(db)@.communities, self.community_id);
                let p = person_by_id(old(db)@.persons, actor_person_id);
                &&& e@.notifications =~= seq![
                    Notification {
                        object_id: self.community_id,
                        op: UserOperationCrud::RemoveCommunity,
                        websocket_id: websocket_id,
                        person_id: Some(actor_person_id),
                    },
                ]
                &&& e@.forwards.len() == 1
                &&& e@.forwards[0].community_id == self.community_id
                &&& (self.removed ==> ({
                    &&& e@.forwards[0].activity matches AnnouncableActivities::Delete(d)
                    &&& d.to == PublicUrl::Public
                    &&& d.object == c.apub_id
                    &&& d.cc == c.apub_id
                    &&& d.common.id == delete_id
                    &&& d.common.actor == p.apub_id
                    &&& d.summary matches Some(t)
                    &&& t@ == spec_reason_text(self.reason)
                }))
                &&& (!self.removed ==> ({
                    &&& e@.forwards[0].activity matches AnnouncableActivities::UndoDelete(u)
                    &&& u.to == PublicUrl::Public
                    &&& u.cc == c.apub_id
                    &&& u.common.id == undo_id
                    &&& u.common.actor == p.apub_id
                    &&& u.object.object == c.apub_id
                    &&& u.object.cc == c.apub_id
                    &&& u.object.common.id == delete_id
                    &&& u.object.common.actor == p.apub_id
                    &&& u.object.summary matches Some(t)
                    &&& t@ == spec_reason_text(self.reason)
                }))
            }),
    {
        let pi = match find_person_by_id(&db.persons, actor_person_id) {
            Some(i) => i,
            None => {
                return Err(ActivityError::NotAuthorized);
            },
        };
        proof {
            lemma_person_at(db.persons@, pi as int, actor_person_id);
        }
        if !db.persons[pi].admin {
            return Err(ActivityError::NotAuthorized);
        }
        let ci = match find_community_by_id(&db.communities, self.community_id) {
            Some(i) => i,
            None => {
                return Err(ActivityError::StorageError);
            },
        };
        proof {
            lemma_community_at(db.communities@, ci as int, self.community_id);
        }
        let community_apub = db.communities[ci].apub_id.clone();
        let actor_apub = db.persons[pi].apub_id.clone();
        match db.update_community(self.community_id, TargetFlag::Removed, self.removed) {
            Ok(()) => {},
            Err(e) => {
                return Err(e);
            },
        }
        let reason = match &self.reason {
            Some(s) => Some(s.clone()),
            None => None,
        };
        db.add_mod_log(
            ModLogEntry {
                mod_person_id: actor_person_id,
                object: DeletableObjects::Community(self.community_id),
                removed: self.removed,
                reason,
                expires: self.expires,
            },
        );
        let reason_text: String = match &self.reason {
            Some(s) => s.clone(),
            None => String::new(),
        };
        let activity = if self.removed {
            AnnouncableActivities::Delete(
                build_delete(
                    &actor_apub,
                    &community_apub,
                    community_apub.clone(),
                    Some(reason_text),
                    delete_id,
                ),
            )
        } else {
            AnnouncableActivities::UndoDelete(
                build_undo_delete(
                    &actor_apub,
                    &community_apub,
                    community_apub.clone(),
                    Some(reason_text),
                    delete_id,
                    undo_id,
                ),
            )
        };
        let mut notifications: Vec<Notification> = Vec::new();
        notifications.push(
            Notification {
                object_id: self.community_id,
                op: UserOperationCrud::RemoveCommunity,
                websocket_id,
                person_id: Some(actor_person_id),
            },
        );
        let mut forwards: Vec<Forward> = Vec::new();
        forwards.push(Forward { community_id: self.community_id, activity });
        let e = Effects { notifications, forwards };
        Ok(e)
    }
}

} // verus!
