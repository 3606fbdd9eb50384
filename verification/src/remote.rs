//! The remote side of the federation, as the resolver sees it: what the other
//! servers would serve for an actor or community identifier, and the
//! fetch-and-upsert operations that mirror such a record locally. Every fetch
//! consumes one unit of the per-activity request budget.

use vstd::prelude::*;
use crate::ids::{ApubId, ApubIdView};
use crate::model::{Community, Person};
use crate::db::{
    Database, DbView, communities_has_apub, community_by_apub, distinct_communities,
    distinct_persons, find_community_by_apub, find_person_by_apub, lemma_community_at_apub,
    lemma_person_at_apub, persons_has_apub, person_by_apub,
};
use crate::{ActivityError, RequestCounter};

verus! {

/// What the rest of the federation would answer to a fetch: the authoritative
/// records of the other servers, keyed by federation identifier.
pub struct RemoteServers {
    pub communities: Vec<Community>,
    pub persons: Vec<Person>,
}

#[verifier::ext_equal]
pub ghost struct RemoteView {
    pub communities: Seq<Community>,
    pub persons: Seq<Person>,
}

impl View for RemoteServers {
    type V = RemoteView;

    open spec fn view(&self) -> RemoteView {
        RemoteView { communities: self.communities@, persons: self.persons@ }
    }
}

impl RemoteView {
    pub open spec fn wf(self) -> bool {
        &&& distinct_communities(self.communities)
        &&& distinct_persons(self.persons)
    }
}

/// The database after a fetched actor is mirrored locally: the mirror gets a
/// fresh row id, is never local, and keeps the admin standing its origin
/// server asserts.
pub open spec fn upsert_person(db: DbView, p: Person) -> DbView {
    DbView {
        next_id: (db.next_id + 1) as u64,
        persons: db.persons.push(
            Person { id: db.next_id, apub_id: p.apub_id, local: false, admin: p.admin },
        ),
        ..db
    }
}

/// The resolver's outcome for an actor identifier: the local row if one
/// exists; otherwise, within the fetch budget, the remote record mirrored
/// under a fresh id; otherwise the failure that rejects the activity.
pub open spec fn spec_resolve_person(
    db: DbView,
    rem: RemoteView,
    a: ApubIdView,
    cnt: RequestCounter,
) -> (Result<u64, ActivityError>, DbView, RequestCounter) {
    if persons_has_apub(db.persons, a) {
        (Ok(person_by_apub(db.persons, a).id), db, cnt)
    } else if cnt.used < cnt.limit {
        let cnt2 = RequestCounter { used: (cnt.used + 1) as u32, limit: cnt.limit };
        if persons_has_apub(rem.persons, a) {
            if db.next_id < u64::MAX {
                (Ok(db.next_id), upsert_person(db, person_by_apub(rem.persons, a)), cnt2)
            } else {
                (Err(ActivityError::StorageError), db, cnt2)
            }
        } else {
            (Err(ActivityError::UnresolvableObject), db, cnt2)
        }
    } else {
        (Err(ActivityError::UnresolvableObject), db, cnt)
    }
}

/// `fetchAndUpsertActor`: resolves an acting identity to its local row id,
/// fetching and mirroring it first when it is not yet known locally.
pub fn get_or_fetch_and_upsert_person(
    db: &mut Database,
    remote: &RemoteServers,
    a: &ApubId,
    counter: &mut RequestCounter,
) -> (r: Result<u64, ActivityError>)
    requires
        old(db)@.wf(),
        remote@.wf(),
    ensures
        final(db)@.wf(),
        ({
            let (res, dbv, cntv) = spec_resolve_person(old(db)@, remote@, a@, *old(counter));
            r == res && final(db)@ == dbv && *final(counter) == cntv
        }),
{
    match find_person_by_apub(&db.persons, a) {
        Some(i) => {
            proof {
                lemma_person_at_apub(db.persons@, i as int, a@);
            }
            Ok(db.persons[i].id)
        },
        None => {
            if counter.try_consume() {
                match find_person_by_apub(&remote.persons, a) {
                    Some(i) => {
                        proof {
                            lemma_person_at_apub(remote.persons@, i as int, a@);
                        }
                        if db.next_id < u64::MAX {
                            let pid = db.next_id;
                            let p = Person {
                                id: pid,
                                apub_id: remote.persons[i].apub_id.clone(),
                                local: false,
                                admin: remote.persons[i].admin,
                            };
                            db.persons.push(p);
                            db.next_id = db.next_id + 1;
                            proof {
                                let s0 = old(db).persons@;
                                assert(db@ =~= upsert_person(
                                    old(db)@,
                                    person_by_apub(remote@.persons, a@),
                                ));
                                assert forall|x: int, y: int|
                                    0 <= x < db.persons@.len() && 0 <= y < db.persons@.len() && x
                                        != y implies db.persons@[x].id != db.persons@[y].id
                                    && db.persons@[x].apub_id@ != db.persons@[y].apub_id@ by {
                                    if x < s0.len() {
                                        assert(db.persons@[x] == s0[x]);
                                    }
                                    if y < s0.len() {
                                        assert(db.persons@[y] == s0[y]);
                                    }
                                }
                                assert forall|k: int| 0 <= k < db.persons@.len()
                                    implies db.persons@[k].id < db@.next_id by {
                                    if k < s0.len() {
                                        assert(db.persons@[k] == s0[k]);
                                    }
                                }
                            }
                            Ok(pid)
                        } else {
                            Err(ActivityError::StorageError)
                        }
                    },
                    None => Err(ActivityError::UnresolvableObject),
                }
            } else {
                Err(ActivityError::UnresolvableObject)
            }
        },
    }
}

/// What an upserted mirror of a remote community looks like: a fresh local
/// row id, never local, with the state its origin server asserts.
pub open spec fn mirrors_community(c2: Community, id: u64, rc: Community) -> bool {
    &&& c2.id == id
    &&& c2.apub_id@ == rc.apub_id@
    &&& c2.local == false
    &&& c2.deleted == rc.deleted
    &&& c2.removed == rc.removed
    &&& c2.moderators@ == rc.moderators@
}

/// `fetchAndUpsertObject`, for communities: refetches the remote record and
/// mirrors it locally when it is not yet known.
pub fn get_or_fetch_and_upsert_community(
    db: &mut Database,
    remote: &RemoteServers,
    a: &ApubId,
    counter: &mut RequestCounter,
) -> (r: Result<u64, ActivityError>)
    requires
        old(db)@.wf(),
        remote@.wf(),
    ensures
        final(db)@.wf(),
        final(counter).limit == old(counter).limit,
        communities_has_apub(old(db)@.communities, a@) ==> r == Ok::<u64, ActivityError>(
            community_by_apub(old(db)@.communities, a@).id,
        ) && final(db)@ == old(db)@ && *final(counter) == *old(counter),
        !communities_has_apub(old(db)@.communities, a@)
            && !(old(counter).used < old(counter).limit)
            ==> r == Err::<u64, ActivityError>(ActivityError::UnresolvableObject)
                && final(db)@ == old(db)@ && *final(counter) == *old(counter),
        !communities_has_apub(old(db)@.communities, a@) && old(counter).used < old(counter).limit
            ==> final(counter).used == old(counter).used + 1 && {
            let rem_has = communities_has_apub(remote@.communities, a@);
            &&& (!rem_has ==> r == Err::<u64, ActivityError>(ActivityError::UnresolvableObject)
                && final(db)@ == old(db)@)
            &&& (rem_has && old(db)@.next_id == u64::MAX
                ==> r == Err::<u64, ActivityError>(ActivityError::StorageError)
                    && final(db)@ == old(db)@)
            &&& (rem_has && old(db)@.next_id < u64::MAX
                ==> r == Ok::<u64, ActivityError>(old(db)@.next_id)
                    && final(db)@.next_id == old(db)@.next_id + 1
                    && final(db)@.posts == old(db)@.posts
                    && final(db)@.comments == old(db)@.comments
                    && final(db)@.persons == old(db)@.persons
                    && final(db)@.mod_log == old(db)@.mod_log
                    && final(db)@.blocked_domains == old(db)@.blocked_domains
                    && exists|c2: Community|
                        mirrors_community(
                            c2,
                            old(db)@.next_id,
                            community_by_apub(remote@.communities, a@),
                        ) && final(db)@.communities == old(db)@.communities.push(c2))
        },
{
    match find_community_by_apub(&db.communities, a) {
        Some(i) => {
            proof {
                lemma_community_at_apub(db.communities@, i as int, a@);
            }
            Ok(db.communities[i].id)
        },
        None => {
            if counter.try_consume() {
                match find_community_by_apub(&remote.communities, a) {
                    Some(i) => {
                        proof {
                            lemma_community_at_apub(remote.communities@, i as int, a@);
                        }
                        if db.next_id < u64::MAX {
                            let cid = db.next_id;
                            let rc = &remote.communities[i];
                            let c2 = Community {
                                id: cid,
                                apub_id: rc.apub_id.clone(),
                                local: false,
                                deleted: rc.deleted,
                                removed: rc.removed,
                                moderators: rc.moderators.clone(),
                            };
                            proof {
                                assert(mirrors_community(
                                    c2,
                                    cid,
                                    community_by_apub(remote@.communities, a@),
                                ));
                            }
                            db.communities.push(c2);
                            db.next_id = db.next_id + 1;
                            proof {
                                let s0 = old(db).communities@;
                                assert forall|x: int, y: int|
                                    0 <= x < db.communities@.len() && 0 <= y
                                        < db.communities@.len() && x != y
                                    implies db.communities@[x].id != db.communities@[y].id
                                    && db.communities@[x].apub_id@
                                    != db.communities@[y].apub_id@ by {
                                    if x < s0.len() {
                                        assert(db.communities@[x] == s0[x]);
                                    }
                                    if y < s0.len() {
                                        assert(db.communities@[y] == s0[y]);
                                    }
                                }
                                assert forall|k: int| 0 <= k < db.communities@.len()
                                    implies db.communities@[k].id < db@.next_id by {
                                    if k < s0.len() {
                                        assert(db.communities@[k] == s0[k]);
                                    }
                                }
                            }
                            Ok(cid)
                        } else {
                            Err(ActivityError::StorageError)
                        }
                    },
                    None => Err(ActivityError::UnresolvableObject),
                }
            } else {
                Err(ActivityError::UnresolvableObject)
            }
        },
    }
}

/// The liveness check of the verifier: whether the acting identity resolves
/// to a known actor, locally or within the fetch budget remotely; consumes
/// one unit of the budget exactly when a fetch is attempted.
pub open spec fn spec_actor_liveness(
    db: DbView,
    rem: RemoteView,
    a: ApubIdView,
    cnt: RequestCounter,
) -> (Result<(), ActivityError>, RequestCounter) {
    if persons_has_apub(db.persons, a) {
        (Ok(()), cnt)
    } else if cnt.used < cnt.limit {
        let cnt2 = RequestCounter { used: (cnt.used + 1) as u32, limit: cnt.limit };
        if persons_has_apub(rem.persons, a) {
            (Ok(()), cnt2)
        } else {
            (Err(ActivityError::InvalidActor), cnt2)
        }
    } else {
        (Err(ActivityError::UnresolvableObject), cnt)
    }
}

/// Actor-identity liveness (the verifier's last check): the acting identity
/// must independently resolve to a known actor. Reads only; the mirroring
/// upsert, when one is needed, happens when the activity is received.
pub fn check_actor_liveness(
    db: &Database,
    remote: &RemoteServers,
    a: &ApubId,
    counter: &mut RequestCounter,
) -> (r: Result<(), ActivityError>)
    ensures
        ({
            let (res, cntv) = spec_actor_liveness(db@, remote@, a@, *old(counter));
            r == res && *final(counter) == cntv
        }),
{
    match find_person_by_apub(&db.persons, a) {
        Some(_) => Ok(()),
        None => {
            if counter.try_consume() {
                match find_person_by_apub(&remote.persons, a) {
                    Some(_) => Ok(()),
                    None => Err(ActivityError::InvalidActor),
                }
            } else {
                Err(ActivityError::UnresolvableObject)
            }
        },
    }
}

} // verus!
