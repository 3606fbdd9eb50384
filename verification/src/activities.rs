//! Inbound activities and their verification. An activity is only applied
//! after `verify` accepts it: domain match (an actor may only speak for its
//! own server), nested verification for wrappers, audience consistency,
//! authorization against the locally-known moderator and admin sets, and
//! actor liveness within the fetch budget.

use vstd::prelude::*;
use crate::ids::{ApubId, ApubIdView, domains_match};
use crate::model::DeletableObjects;
use crate::db::{
    Database, DbView, communities_has_apub, communities_has_id, community_by_apub,
    community_by_id, comments_has_apub, comment_by_apub, find_community_by_id, find_person_by_apub,
    find_post_by_id, lemma_community_at, lemma_community_at_apub, lemma_comment_at_apub,
    lemma_person_at_apub, lemma_post_at, lemma_post_at_apub, person_by_apub, persons_has_apub,
    posts_has_apub, posts_has_id, post_by_apub, post_by_id,
};
use crate::remote::{RemoteServers, RemoteView, check_actor_liveness, spec_actor_liveness};
use crate::{ActivityError, RequestCounter};

verus! {

/// The public audience marker every activity here is addressed to.
#[derive(Clone, Copy, PartialEq, Eq, Debug, Structural)]
pub enum PublicUrl {
    Public,
}

/// The fields every activity carries: its own id and its actor.
pub struct ActivityCommonFields {
    pub id: ApubId,
    pub actor: ApubId,
}

/// Delete: a self-initiated deletion when `summary` is absent, a moderation
/// removal (with the summary as the reason) when it is present.
pub struct Delete {
    pub to: PublicUrl,
    pub object: ApubId,
    /// The community-scoped recipient collection: the first entry of the
    /// activity's recipient list.
    pub cc: ApubId,
    pub summary: Option<String>,
    pub common: ActivityCommonFields,
}

/// Undo(Delete): restores from a self-delete when the wrapped Delete has no
/// summary, from a moderator removal when it has one.
pub struct UndoDelete {
    pub to: PublicUrl,
    pub object: Delete,
    pub cc: ApubId,
    pub common: ActivityCommonFields,
}

/// The community-targeted Delete shape: either a remote moderator acting on a
/// locally-known community (the object resolves locally), or a community
/// announcing its own deletion to its followers.
pub struct DeleteCommunity {
    pub to: PublicUrl,
    pub object: ApubId,
    pub cc: ApubId,
    pub common: ActivityCommonFields,
}

// ---------------------------------------------------------------------------
// The individual checks.
// ---------------------------------------------------------------------------

pub open spec fn spec_verify_domains(a: ApubIdView, b: ApubIdView) -> Result<(), ActivityError> {
    if a.domain == b.domain {
        Ok(())
    } else {
        Err(ActivityError::DomainMismatch)
    }
}

/// Domain match: two identifiers must belong to the same server; a mismatch
/// signals spoofing.
pub fn verify_domains_match(a: &ApubId, b: &ApubId) -> (r: Result<(), ActivityError>)
    ensures
        r == spec_verify_domains(a@, b@),
{
    if domains_match(a, b) {
        Ok(())
    } else {
        Err(ActivityError::DomainMismatch)
    }
}

/// Step one of every verification: the activity's stated actor must share the
/// domain of the activity's own id.
pub fn verify_activity(common: &ActivityCommonFields) -> (r: Result<(), ActivityError>)
    ensures
        r == spec_verify_domains(common.actor@, common.id@),
{
    verify_domains_match(&common.actor, &common.id)
}

/// Audience consistency: the object and the recipient collection must share a
/// domain; a mismatch is treated as cross-domain forgery.
pub fn verify_audience(a: &ApubId, b: &ApubId) -> (r: Result<(), ActivityError>)
    ensures
        r is Ok <==> a@.domain == b@.domain,
        r is Err ==> r == Err::<(), ActivityError>(ActivityError::CrossDomainForgery),
{
    if domains_match(a, b) {
        Ok(())
    } else {
        Err(ActivityError::CrossDomainForgery)
    }
}

pub open spec fn domain_blocked(db: DbView, d: Seq<char>) -> bool {
    exists|k: int| 0 <= k < db.blocked_domains.len() && db.blocked_domains[k] == d
}

/// Whether this instance accepts activities from the identifier's server at
/// all: its domain must not be on the blocked list.
pub fn check_is_apub_id_valid(db: &Database, a: &ApubId) -> (r: Result<(), ActivityError>)
    ensures
        r is Ok <==> !domain_blocked(db@, a@.domain),
        r is Err ==> r == Err::<(), ActivityError>(ActivityError::InvalidActor),
{
    let mut i: usize = 0;
    while i < db.blocked_domains.len()
        invariant
            i <= db.blocked_domains.len(),
            forall|k: int| 0 <= k < i ==> db@.blocked_domains[k] != a@.domain,
        decreases db.blocked_domains.len() - i,
    {
        if db.blocked_domains[i] == a.domain {
            proof {
                assert(db@.blocked_domains[i as int] == a@.domain);
            }
            return Err(ActivityError::InvalidActor);
        }
        i = i + 1;
    }
    Ok(())
}

pub fn mods_contain(v: &Vec<u64>, x: u64) -> (r: bool)
    ensures
        r == v@.contains(x),
{
    let mut i: usize = 0;
    while i < v.len()
        invariant
            i <= v.len(),
            forall|k: int| 0 <= k < i ==> v@[k] != x,
        decreases v.len() - i,
    {
        if v[i] == x {
            proof {
                assert(v@[i as int] == x);
            }
            return true;
        }
        i = i + 1;
    }
    false
}

/// Authorization for a moderation action: when the target community is local,
/// the actor must resolve to a locally-known person who is a current
/// moderator of the community or an admin; for a remote-origin community the
/// origin server is authoritative and no local standing is required.
pub open spec fn mod_action_allowed(db: DbView, actor: ApubIdView, cid: u64) -> bool {
    let c = community_by_id(db.communities, cid);
    !c.local || (persons_has_apub(db.persons, actor) && {
        let p = person_by_apub(db.persons, actor);
        c.moderators@.contains(p.id) || p.admin
    })
}

pub fn verify_mod_action(db: &Database, actor: &ApubId, community_id: u64) -> (r: Result<
    (),
    ActivityError,
>)
    requires
        db@.wf(),
        communities_has_id(db@.communities, community_id),
    ensures
        r is Ok <==> mod_action_allowed(db@, actor@, community_id),
        r is Err ==> r == Err::<(), ActivityError>(ActivityError::NotAuthorized),
{
    let i = match find_community_by_id(&db.communities, community_id) {
        Some(i) => i,
        None => {
            return Err(ActivityError::NotAuthorized);
        },
    };
    proof {
        lemma_community_at(db.communities@, i as int, community_id);
    }
    if !db.communities[i].local {
        return Ok(());
    }
    match find_person_by_apub(&db.persons, actor) {
        None => Err(ActivityError::NotAuthorized),
        Some(p) => {
            proof {
                lemma_person_at_apub(db.persons@, p as int, actor@);
            }
            if mods_contain(&db.communities[i].moderators, db.persons[p].id)
                || db.persons[p].admin {
                Ok(())
            } else {
                Err(ActivityError::NotAuthorized)
            }
        },
    }
}

/// Whether the actor resolves locally to an identity that is both local and
/// an admin: the only standing that may undo the removal of a remote-origin
/// community.
pub open spec fn local_admin(db: DbView, actor: ApubIdView) -> bool {
    persons_has_apub(db.persons, actor) && person_by_apub(db.persons, actor).admin
        && person_by_apub(db.persons, actor).local
}

pub fn is_local_admin(db: &Database, actor: &ApubId) -> (r: bool)
    requires
        db@.wf(),
    ensures
        r == local_admin(db@, actor@),
{
    match find_person_by_apub(&db.persons, actor) {
        Some(i) => {
            proof {
                lemma_person_at_apub(db.persons@, i as int, actor@);
            }
            db.persons[i].admin && db.persons[i].local
        },
        None => false,
    }
}

// ---------------------------------------------------------------------------
// The shared verification of a Delete or Undo(Delete): resolve the object
// locally, check audience, blocked-domain, authorization, and liveness, in
// that order, short-circuiting on the first failure.
// ---------------------------------------------------------------------------

pub open spec fn spec_verify_delete_activity(
    db: DbView,
    rem: RemoteView,
    object: ApubIdView,
    cc: ApubIdView,
    actor: ApubIdView,
    is_mod_action: bool,
    is_undo: bool,
    cnt: RequestCounter,
) -> (Result<(), ActivityError>, RequestCounter) {
    if communities_has_apub(db.communities, object) {
        let c = community_by_apub(db.communities, object);
        if is_mod_action {
            if object.domain != cc.domain {
                (Err(ActivityError::CrossDomainForgery), cnt)
            } else if domain_blocked(db, actor.domain) {
                (Err(ActivityError::InvalidActor), cnt)
            } else if !mod_action_allowed(db, actor, c.id) {
                (Err(ActivityError::NotAuthorized), cnt)
            } else if is_undo && !c.local && !local_admin(db, actor) {
                (Err(ActivityError::NotAuthorized), cnt)
            } else {
                spec_actor_liveness(db, rem, actor, cnt)
            }
        } else {
            if actor.domain != object.domain {
                (Err(ActivityError::DomainMismatch), cnt)
            } else {
                spec_actor_liveness(db, rem, actor, cnt)
            }
        }
    } else if posts_has_apub(db.posts, object) {
        let p = post_by_apub(db.posts, object);
        if is_mod_action {
            if !communities_has_id(db.communities, p.community_id) {
                (Err(ActivityError::UnresolvableObject), cnt)
            } else if domain_blocked(db, actor.domain) {
                (Err(ActivityError::InvalidActor), cnt)
            } else if !mod_action_allowed(db, actor, p.community_id) {
                (Err(ActivityError::NotAuthorized), cnt)
            } else {
                spec_actor_liveness(db, rem, actor, cnt)
            }
        } else {
            if actor.domain != object.domain {
                (Err(ActivityError::DomainMismatch), cnt)
            } else {
                spec_actor_liveness(db, rem, actor, cnt)
            }
        }
    } else if comments_has_apub(db.comments, object) {
        let cm = comment_by_apub(db.comments, object);
        if !posts_has_id(db.posts, cm.post_id) {
            (Err(ActivityError::UnresolvableObject), cnt)
        } else {
            let p = post_by_id(db.posts, cm.post_id);
            if is_mod_action {
                if !communities_has_id(db.communities, p.community_id) {
                    (Err(ActivityError::UnresolvableObject), cnt)
                } else if domain_blocked(db, actor.domain) {
                    (Err(ActivityError::InvalidActor), cnt)
                } else if !mod_action_allowed(db, actor, p.community_id) {
                    (Err(ActivityError::NotAuthorized), cnt)
                } else {
                    spec_actor_liveness(db, rem, actor, cnt)
                }
            } else {
                if actor.domain != object.domain {
                    (Err(ActivityError::DomainMismatch), cnt)
                } else {
                    spec_actor_liveness(db, rem, actor, cnt)
                }
            }
        }
    } else {
        (Err(ActivityError::UnresolvableObject), cnt)
    }
}

#[verifier::rlimit(100)]
pub fn verify_delete_activity(
    db: &Database,
    remote: &RemoteServers,
    object: &ApubId,
    cc: &ApubId,
    actor: &ApubId,
    is_mod_action: bool,
    is_undo: bool,
    counter: &mut RequestCounter,
) -> (r: Result<(), ActivityError>)
    requires
        db@.wf(),
    ensures
        ({
            let m = spec_verify_delete_activity(
                db@,
                remote@,
                object@,
                cc@,
                actor@,
                is_mod_action,
                is_undo,
                *old(counter),
            );
            r == m.0 && *final(counter) == m.1
        }),
{
    match db.read_by_apub_id(object) {
        None => Err(ActivityError::UnresolvableObject),
        Some(DeletableObjects::Community(cid)) => {
            proof {
                let j = choose|j: int|
                    0 <= j < db@.communities.len() && db@.communities[j].apub_id@ == object@
                        && db@.communities[j].id == cid;
                lemma_community_at_apub(db.communities@, j, object@);
            }
            let i = match find_community_by_id(&db.communities, cid) {
                Some(i) => i,
                None => {
                    return Err(ActivityError::UnresolvableObject);
                },
            };
            proof {
                lemma_community_at(db.communities@, i as int, cid);
                assert(db.communities@[i as int] == community_by_apub(db@.communities, object@));
            }
            if is_mod_action {
                match verify_audience(object, cc) {
                    Err(e) => {
                        return Err(e);
                    },
                    Ok(()) => {},
                }
                match check_is_apub_id_valid(db, actor) {
                    Err(e) => {
                        return Err(e);
                    },
                    Ok(()) => {},
                }
                match verify_mod_action(db, actor, cid) {
                    Err(e) => {
                        return Err(e);
                    },
                    Ok(()) => {},
                }
                if is_undo && !db.communities[i].local {
                    if !is_local_admin(db, actor) {
                        return Err(ActivityError::NotAuthorized);
                    }
                }
                check_actor_liveness(db, remote, actor, counter)
            } else {
                match verify_domains_match(actor, object) {
                    Err(e) => {
                        return Err(e);
                    },
                    Ok(()) => {},
                }
                check_actor_liveness(db, remote, actor, counter)
            }
        },
        Some(DeletableObjects::Post(pid)) => {
            proof {
                let j = choose|j: int|
                    0 <= j < db@.posts.len() && db@.posts[j].apub_id@ == object@
                        && db@.posts[j].id == pid;
                lemma_post_at_apub(db.posts@, j, object@);
            }
            let i = match find_post_by_id(&db.posts, pid) {
                Some(i) => i,
                None => {
                    return Err(ActivityError::UnresolvableObject);
                },
            };
            proof {
                lemma_post_at(db.posts@, i as int, pid);
                assert(db.posts@[i as int] == post_by_apub(db@.posts, object@));
            }
            if is_mod_action {
                let community_id = db.posts[i].community_id;
                let ci = match find_community_by_id(&db.communities, community_id) {
                    Some(ci) => ci,
                    None => {
                        return Err(ActivityError::UnresolvableObject);
                    },
                };
                proof {
                    lemma_community_at(db.communities@, ci as int, community_id);
                }
                match check_is_apub_id_valid(db, actor) {
                    Err(e) => {
                        return Err(e);
                    },
                    Ok(()) => {},
                }
                match verify_mod_action(db, actor, community_id) {
                    Err(e) => {
                        return Err(e);
                    },
                    Ok(()) => {},
                }
                check_actor_liveness(db, remote, actor, counter)
            } else {
                match verify_domains_match(actor, object) {
                    Err(e) => {
                        return Err(e);
                    },
                    Ok(()) => {},
                }
                check_actor_liveness(db, remote, actor, counter)
            }
        },
        Some(DeletableObjects::Comment(cmid)) => {
            proof {
                let j = choose|j: int|
                    0 <= j < db@.comments.len() && db@.comments[j].apub_id@ == object@
                        && db@.comments[j].id == cmid;
                lemma_comment_at_apub(db.comments@, j, object@);
            }
            let i = match find_comment_by_apub_local(db, object) {
                Some(i) => i,
                None => {
                    return Err(ActivityError::UnresolvableObject);
                },
            };
            let post_id = db.comments[i].post_id;
            let pi = match find_post_by_id(&db.posts, post_id) {
                Some(pi) => pi,
                None => {
                    return Err(ActivityError::UnresolvableObject);
                },
            };
            proof {
                lemma_post_at(db.posts@, pi as int, post_id);
            }
            if is_mod_action {
                let community_id = db.posts[pi].community_id;
                let ci = match find_community_by_id(&db.communities, community_id) {
                    Some(ci) => ci,
                    None => {
                        return Err(ActivityError::UnresolvableObject);
                    },
                };
                proof {
                    lemma_community_at(db.communities@, ci as int, community_id);
                }
                match check_is_apub_id_valid(db, actor) {
                    Err(e) => {
                        return Err(e);
                    },
                    Ok(()) => {},
                }
                match verify_mod_action(db, actor, community_id) {
                    Err(e) => {
                        return Err(e);
                    },
                    Ok(()) => {},
                }
                check_actor_liveness(db, remote, actor, counter)
            } else {
                match verify_domains_match(actor, object) {
                    Err(e) => {
                        return Err(e);
                    },
                    Ok(()) => {},
                }
                check_actor_liveness(db, remote, actor, counter)
            }
        },
    }
}

/// Finds a comment row by federation identifier and pins it against the
/// spec-level lookup.
fn find_comment_by_apub_local(db: &Database, a: &ApubId) -> (r: Option<usize>)
    requires
        db@.wf(),
        comments_has_apub(db@.comments, a@),
    ensures
        r is Some,
        r matches Some(i) ==> i < db.comments.len() && db.comments@[i as int] == comment_by_apub(
            db@.comments,
            a@,
        ),
{
    match crate::db::find_comment_by_apub(&db.comments, a) {
        Some(i) => {
            proof {
                lemma_comment_at_apub(db.comments@, i as int, a@);
            }
            Some(i)
        },
        None => None,
    }
}

// ---------------------------------------------------------------------------
// The three activities' own verification.
// ---------------------------------------------------------------------------

pub open spec fn spec_delete_verify(d: Delete, db: DbView, rem: RemoteView, cnt: RequestCounter) -> (
    Result<(), ActivityError>,
    RequestCounter,
) {
    if d.common.actor@.domain != d.common.id@.domain {
        (Err(ActivityError::DomainMismatch), cnt)
    } else {
        spec_verify_delete_activity(
            db,
            rem,
            d.object@,
            d.cc@,
            d.common.actor@,
            d.summary is Some,
            false,
            cnt,
        )
    }
}

impl Delete {
    /// Verifies a Delete: domain match first, then the shared delete-activity
    /// checks, with the summary's presence deciding whether it is a
    /// moderation action. A domain mismatch is rejected before anything is
    /// resolved or fetched.
    pub fn verify(
        &self,
        db: &Database,
        remote: &RemoteServers,
        counter: &mut RequestCounter,
    ) -> (r: Result<(), ActivityError>)
        requires
            db@.wf(),
        ensures
            ({
                let m = spec_delete_verify(*self, db@, remote@, *old(counter));
                r == m.0 && *final(counter) == m.1
            }),
            self.common.actor@.domain != self.common.id@.domain ==> r == Err::<(), ActivityError>(
                ActivityError::DomainMismatch,
            ) && *final(counter) == *old(counter),
    {
        match verify_activity(&self.common) {
            Err(e) => {
                return Err(e);
            },
            Ok(()) => {},
        }
        verify_delete_activity(
            db,
            remote,
            &self.object,
            &self.cc,
            &self.common.actor,
            self.summary.is_some(),
            false,
            counter,
        )
    }

    pub fn common(&self) -> (r: &ActivityCommonFields)
        ensures
            r == &self.common,
    {
        &self.common
    }
}

pub open spec fn spec_undo_delete_verify(
    u: UndoDelete,
    db: DbView,
    rem: RemoteView,
    cnt: RequestCounter,
) -> (Result<(), ActivityError>, RequestCounter) {
    if u.common.actor@.domain != u.common.id@.domain {
        (Err(ActivityError::DomainMismatch), cnt)
    } else {
        let inner = spec_delete_verify(u.object, db, rem, cnt);
        if inner.0 is Err {
            inner
        } else {
            spec_verify_delete_activity(
                db,
                rem,
                u.object.object@,
                u.cc@,
                u.common.actor@,
                u.object.summary is Some,
                true,
                inner.1,
            )
        }
    }
}

impl UndoDelete {
    /// Verifies an Undo(Delete): the wrapper's domain match, then the wrapped
    /// Delete in full, then the shared checks again for the undoing actor.
    pub fn verify(
        &self,
        db: &Database,
        remote: &RemoteServers,
        counter: &mut RequestCounter,
    ) -> (r: Result<(), ActivityError>)
        requires
            db@.wf(),
        ensures
            ({
                let m = spec_undo_delete_verify(*self, db@, remote@, *old(counter));
                r == m.0 && *final(counter) == m.1
            }),
            self.common.actor@.domain != self.common.id@.domain ==> r == Err::<(), ActivityError>(
                ActivityError::DomainMismatch,
            ) && *final(counter) == *old(counter),
    {
        match verify_activity(&self.common) {
            Err(e) => {
                return Err(e);
            },
            Ok(()) => {},
        }
        match self.object.verify(db, remote, counter) {
            Err(e) => {
                return Err(e);
            },
            Ok(()) => {},
        }
        verify_delete_activity(
            db,
            remote,
            &self.object.object,
            &self.cc,
            &self.common.actor,
            self.object.summary.is_some(),
            true,
            counter,
        )
    }

    pub fn common(&self) -> (r: &ActivityCommonFields)
        ensures
            r == &self.common,
    {
        &self.common
    }
}

pub open spec fn spec_delete_community_verify(d: DeleteCommunity, db: DbView) -> Result<
    (),
    ActivityError,
> {
    if d.common.actor@.domain != d.common.id@.domain {
        Err(ActivityError::DomainMismatch)
    } else if communities_has_apub(db.communities, d.object@) {
        let c = community_by_apub(db.communities, d.object@);
        if d.object@.domain != d.cc@.domain {
            Err(ActivityError::CrossDomainForgery)
        } else if domain_blocked(db, d.common.actor@.domain) {
            Err(ActivityError::InvalidActor)
        } else if !mod_action_allowed(db, d.common.actor@, c.id) {
            Err(ActivityError::NotAuthorized)
        } else {
            Ok(())
        }
    } else {
        if d.common.actor@.domain != d.object@.domain {
            Err(ActivityError::DomainMismatch)
        } else if d.common.actor@.domain != d.cc@.domain {
            Err(ActivityError::CrossDomainForgery)
        } else {
            Ok(())
        }
    }
}

impl DeleteCommunity {
    /// Verifies the community-targeted Delete. Two shapes are accepted: a
    /// remote moderator acting on a community known locally (audience,
    /// blocked-domain and moderator checks apply), or a community announcing
    /// its own deletion (the actor must own both object and audience).
    pub fn verify(&self, db: &Database) -> (r: Result<(), ActivityError>)
        requires
            db@.wf(),
        ensures
            r is Ok <==> spec_delete_community_verify(*self, db@) is Ok,
            r is Err ==> r == spec_delete_community_verify(*self, db@),
            self.common.actor@.domain != self.common.id@.domain ==> r == Err::<(), ActivityError>(
                ActivityError::DomainMismatch,
            ),
    {
        match verify_activity(&self.common) {
            Err(e) => {
                return Err(e);
            },
            Ok(()) => {},
        }
        match crate::db::find_community_by_apub(&db.communities, &self.object) {
            Some(i) => {
                proof {
                    lemma_community_at_apub(db.communities@, i as int, self.object@);
                    assert(db@.communities[i as int].id == db.communities@[i as int].id);
                    assert(communities_has_id(db@.communities, db.communities@[i as int].id));
                }
                match verify_audience(&self.object, &self.cc) {
                    Err(e) => {
                        return Err(e);
                    },
                    Ok(()) => {},
                }
                match check_is_apub_id_valid(db, &self.common.actor) {
                    Err(e) => {
                        return Err(e);
                    },
                    Ok(()) => {},
                }
                verify_mod_action(db, &self.common.actor, db.communities[i].id)
            },
            None => {
                match verify_domains_match(&self.common.actor, &self.object) {
                    Err(e) => {
                        return Err(e);
                    },
                    Ok(()) => {},
                }
                verify_audience(&self.common.actor, &self.cc)
            },
        }
    }

    pub fn common(&self) -> (r: &ActivityCommonFields)
        ensures
            r == &self.common,
    {
        &self.common
    }
}

} // verus!
