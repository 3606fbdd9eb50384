use fed_deletion::ActivityError;
use fed_deletion::RequestCounter;
use fed_deletion::activities::{ActivityCommonFields, Delete, DeleteCommunity, PublicUrl, UndoDelete};
use fed_deletion::api;
use fed_deletion::db::Database;
use fed_deletion::deletion::AnnouncableActivities;
use fed_deletion::ids::{ApubId, parse_apub_id};
use fed_deletion::model::{Community, DeletableObjects, Person, Post, TargetFlag, UserOperationCrud};
use fed_deletion::remote::RemoteServers;

fn aid(text: &str, domain: &str) -> ApubId {
    ApubId { text: text.to_string(), domain: domain.to_string() }
}

fn empty_db() -> Database {
    Database {
        next_id: 100,
        communities: vec![],
        posts: vec![],
        comments: vec![],
        persons: vec![],
        mod_log: vec![],
        blocked_domains: vec![],
    }
}

fn empty_remote() -> RemoteServers {
    RemoteServers { communities: vec![], persons: vec![] }
}

/// A local community (id 1) whose top moderator is person 10 (local), plus a
/// local post (id 2) in it and a remote moderator person 20.
fn world() -> Database {
    let mut db = empty_db();
    db.communities.push(Community {
        id: 1,
        apub_id: aid("https://local.example/c/c1", "local.example"),
        local: true,
        deleted: false,
        removed: false,
        moderators: vec![10, 20],
    });
    db.posts.push(Post {
        id: 2,
        apub_id: aid("https://local.example/post/2", "local.example"),
        community_id: 1,
        creator_id: 10,
        local: true,
        deleted: false,
        removed: false,
    });
    db.persons.push(Person {
        id: 10,
        apub_id: aid("https://local.example/u/m1", "local.example"),
        local: true,
        admin: false,
    });
    db.persons.push(Person {
        id: 20,
        apub_id: aid("https://remote.example/u/mod", "remote.example"),
        local: false,
        admin: false,
    });
    db
}

#[test]
fn parse_apub_id_extracts_host() {
    let id = parse_apub_id("https://example.com/c/main").expect("should parse");
    assert_eq!(id.text, "https://example.com/c/main");
    assert_eq!(id.domain, "example.com");
    assert!(parse_apub_id("not a url").is_none());
    assert!(parse_apub_id("mailto:someone@example.com").is_none());
}

#[test]
fn request_counter_budget() {
    let mut c = RequestCounter::new(2);
    assert!(c.try_consume());
    assert!(c.try_consume());
    assert!(!c.try_consume());
    assert_eq!(c.used, 2);
}

#[test]
fn domain_mismatch_rejected_before_anything_else() {
    // The actor's domain differs from the activity id's own domain: spoofing.
    let db = world();
    let remote = empty_remote();
    let mut counter = RequestCounter::new(5);
    let activity = Delete {
        to: PublicUrl::Public,
        object: aid("https://local.example/post/2", "local.example"),
        cc: aid("https://local.example/c/c1", "local.example"),
        summary: None,
        common: ActivityCommonFields {
            id: aid("https://spoof.example/activities/1", "spoof.example"),
            actor: aid("https://remote.example/u/mod", "remote.example"),
        },
    };
    let r = activity.verify(&db, &remote, &mut counter);
    assert_eq!(r, Err(ActivityError::DomainMismatch));
    // No resolver call was made: the fetch budget is untouched.
    assert_eq!(counter.used, 0);
}

#[test]
fn delete_local_community_by_top_mod() {
    // A Delete of a local community: the flag is set, one notification is
    // tagged DeleteCommunity and credits the actor, and a Delete is forwarded
    // to the community's followers.
    let mut db = world();
    let remote = empty_remote();
    let mut counter = RequestCounter::new(5);
    let activity = Delete {
        to: PublicUrl::Public,
        object: aid("https://local.example/c/c1", "local.example"),
        cc: aid("https://local.example/c/c1", "local.example"),
        summary: None,
        common: ActivityCommonFields {
            id: aid("https://local.example/activities/d1", "local.example"),
            actor: aid("https://local.example/u/m1", "local.example"),
        },
    };
    assert_eq!(activity.verify(&db, &remote, &mut counter), Ok(()));
    let fwd_delete = aid("https://local.example/activities/fwd-d", "local.example");
    let fwd_undo = aid("https://local.example/activities/fwd-u", "local.example");
    let effects = activity
        .receive(&mut db, &remote, fwd_delete, fwd_undo, &mut counter)
        .expect("receive should succeed");
    assert!(db.communities[0].deleted);
    assert_eq!(effects.notifications.len(), 1);
    let n = effects.notifications[0];
    assert_eq!(n.object_id, 1);
    assert_eq!(n.op, UserOperationCrud::DeleteCommunity);
    assert_eq!(n.person_id, Some(10));
    assert_eq!(effects.forwards.len(), 1);
    assert_eq!(effects.forwards[0].community_id, 1);
    match &effects.forwards[0].activity {
        AnnouncableActivities::Delete(d) => {
            assert_eq!(d.object.text, "https://local.example/c/c1");
            assert_eq!(d.common.actor.text, "https://local.example/u/m1");
            assert!(d.summary.is_none());
        },
        _ => panic!("expected a forwarded Delete"),
    }
}

#[test]
fn remote_mod_removes_local_post() {
    // A remote moderator removes a local post with reason "spam": the post is
    // marked removed, a moderation-log entry names moderator and reason, and
    // the notification is tagged RemovePost.
    let mut db = world();
    let remote = empty_remote();
    let mut counter = RequestCounter::new(5);
    let activity = Delete {
        to: PublicUrl::Public,
        object: aid("https://local.example/post/2", "local.example"),
        cc: aid("https://local.example/c/c1", "local.example"),
        summary: Some("spam".to_string()),
        common: ActivityCommonFields {
            id: aid("https://remote.example/activities/rm1", "remote.example"),
            actor: aid("https://remote.example/u/mod", "remote.example"),
        },
    };
    assert_eq!(activity.verify(&db, &remote, &mut counter), Ok(()));
    let fwd_delete = aid("https://local.example/activities/fd", "local.example");
    let fwd_undo = aid("https://local.example/activities/fu", "local.example");
    let effects = activity
        .receive(&mut db, &remote, fwd_delete, fwd_undo, &mut counter)
        .expect("receive should succeed");
    assert!(db.posts[0].removed);
    assert_eq!(db.mod_log.len(), 1);
    let entry = &db.mod_log[0];
    assert_eq!(entry.mod_person_id, 20);
    assert_eq!(entry.object, DeletableObjects::Post(2));
    assert!(entry.removed);
    assert_eq!(entry.reason.as_deref(), Some("spam"));
    assert_eq!(effects.notifications.len(), 1);
    assert_eq!(effects.notifications[0].op, UserOperationCrud::RemovePost);
    assert_eq!(effects.notifications[0].object_id, 2);
}

#[test]
fn delete_replay_is_idempotent() {
    // Applying the identical Delete twice: same terminal state, and the
    // storage write carries `true` both times (the replay still succeeds and
    // still notifies).
    let mut db = world();
    let remote = empty_remote();
    let mut counter = RequestCounter::new(10);
    let activity = Delete {
        to: PublicUrl::Public,
        object: aid("https://local.example/post/2", "local.example"),
        cc: aid("https://local.example/c/c1", "local.example"),
        summary: None,
        common: ActivityCommonFields {
            id: aid("https://local.example/activities/d2", "local.example"),
            actor: aid("https://local.example/u/m1", "local.example"),
        },
    };
    let fd = || aid("https://local.example/activities/x", "local.example");
    let fu = || aid("https://local.example/activities/y", "local.example");
    let e1 = activity.receive(&mut db, &remote, fd(), fu(), &mut counter).unwrap();
    assert!(db.posts[0].deleted);
    let e2 = activity.receive(&mut db, &remote, fd(), fu(), &mut counter).unwrap();
    assert!(db.posts[0].deleted);
    // Replay emitted a notification again, exactly one per request.
    assert_eq!(e1.notifications.len(), 1);
    assert_eq!(e2.notifications.len(), 1);
    assert_eq!(e1.notifications[0], e2.notifications[0]);
    // Nothing else changed on replay.
    assert_eq!(db.posts.len(), 1);
    assert_eq!(db.mod_log.len(), 0);
}

#[test]
fn undo_restores_after_replayed_delete() {
    // However often the Delete was replayed, Undo(Delete) restores the
    // community: deleted and removed are both false afterwards.
    let mut db = world();
    let remote = empty_remote();
    let mut counter = RequestCounter::new(10);
    let delete = Delete {
        to: PublicUrl::Public,
        object: aid("https://local.example/c/c1", "local.example"),
        cc: aid("https://local.example/c/c1", "local.example"),
        summary: None,
        common: ActivityCommonFields {
            id: aid("https://local.example/activities/d3", "local.example"),
            actor: aid("https://local.example/u/m1", "local.example"),
        },
    };
    let fd = || aid("https://local.example/activities/x", "local.example");
    let fu = || aid("https://local.example/activities/y", "local.example");
    delete.receive(&mut db, &remote, fd(), fu(), &mut counter).unwrap();
    delete.receive(&mut db, &remote, fd(), fu(), &mut counter).unwrap();
    delete.receive(&mut db, &remote, fd(), fu(), &mut counter).unwrap();
    assert!(db.communities[0].deleted);
    let undo = UndoDelete {
        to: PublicUrl::Public,
        object: delete,
        cc: aid("https://local.example/c/c1", "local.example"),
        common: ActivityCommonFields {
            id: aid("https://local.example/activities/u3", "local.example"),
            actor: aid("https://local.example/u/m1", "local.example"),
        },
    };
    let effects = undo.receive(&mut db, &remote, fd(), fu(), &mut counter).unwrap();
    assert!(!db.communities[0].deleted);
    assert!(!db.communities[0].removed);
    assert_eq!(effects.notifications.len(), 1);
    assert_eq!(effects.notifications[0].op, UserOperationCrud::EditCommunity);
}

#[test]
fn remove_community_requires_admin() {
    // A RemoveCommunity request from a non-top-moderator, non-admin actor:
    // NotAuthorized, no storage mutation, no notification, no forwarding.
    let mut db = world();
    db.persons.push(Person {
        id: 30,
        apub_id: aid("https://local.example/u/nobody", "local.example"),
        local: true,
        admin: false,
    });
    let req = api::RemoveCommunity {
        community_id: 1,
        removed: true,
        reason: Some("bad".to_string()),
        expires: None,
    };
    let di = aid("https://local.example/activities/r1", "local.example");
    let ui = aid("https://local.example/activities/r2", "local.example");
    let r = req.perform(&mut db, 30, None, di, ui);
    assert_eq!(r.err(), Some(ActivityError::NotAuthorized));
    assert!(!db.communities[0].removed);
    assert_eq!(db.mod_log.len(), 0);
}

#[test]
fn remove_community_by_admin_writes_mod_log() {
    let mut db = world();
    db.persons.push(Person {
        id: 40,
        apub_id: aid("https://local.example/u/admin", "local.example"),
        local: true,
        admin: true,
    });
    let req = api::RemoveCommunity {
        community_id: 1,
        removed: true,
        reason: Some("breaks the rules".to_string()),
        expires: Some(1_700_000_000),
    };
    let di = aid("https://local.example/activities/r3", "local.example");
    let ui = aid("https://local.example/activities/r4", "local.example");
    let effects = req.perform(&mut db, 40, Some(7), di, ui).expect("admin removal succeeds");
    assert!(db.communities[0].removed);
    assert_eq!(db.mod_log.len(), 1);
    assert_eq!(db.mod_log[0].mod_person_id, 40);
    assert_eq!(db.mod_log[0].object, DeletableObjects::Community(1));
    assert!(db.mod_log[0].removed);
    assert_eq!(db.mod_log[0].reason.as_deref(), Some("breaks the rules"));
    assert_eq!(db.mod_log[0].expires, Some(1_700_000_000));
    assert_eq!(effects.notifications.len(), 1);
    let n = effects.notifications[0];
    assert_eq!(n.op, UserOperationCrud::RemoveCommunity);
    assert_eq!(n.websocket_id, Some(7));
    assert_eq!(n.person_id, Some(40));
    assert_eq!(effects.forwards.len(), 1);
    match &effects.forwards[0].activity {
        AnnouncableActivities::Delete(d) => {
            assert_eq!(d.summary.as_deref(), Some("breaks the rules"));
            assert_eq!(d.object.text, "https://local.example/c/c1");
        },
        _ => panic!("expected a forwarded Delete"),
    }
}

#[test]
fn delete_own_community_via_api() {
    let mut db = world();
    let req = api::DeleteCommunity { community_id: 1, deleted: true };
    let di = aid("https://local.example/activities/a1", "local.example");
    let ui = aid("https://local.example/activities/a2", "local.example");
    let effects = req.perform(&mut db, 10, Some(3), di, ui).expect("top mod may delete");
    assert!(db.communities[0].deleted);
    assert_eq!(effects.notifications.len(), 1);
    assert_eq!(effects.notifications[0].op, UserOperationCrud::DeleteCommunity);
    assert_eq!(effects.notifications[0].websocket_id, Some(3));
    assert_eq!(effects.notifications[0].person_id, Some(10));
    assert_eq!(effects.forwards.len(), 1);
}

#[test]
fn delete_own_community_not_top_mod() {
    // Person 20 moderates the community but is not index 0: not allowed.
    let mut db = world();
    let req = api::DeleteCommunity { community_id: 1, deleted: true };
    let di = aid("https://local.example/activities/a3", "local.example");
    let ui = aid("https://local.example/activities/a4", "local.example");
    let r = req.perform(&mut db, 20, None, di, ui);
    assert_eq!(r.err(), Some(ActivityError::NotAuthorized));
    assert!(!db.communities[0].deleted);
}

/// A removed remote-origin community plus a remote admin and a local admin.
fn remote_community_world() -> Database {
    let mut db = empty_db();
    db.communities.push(Community {
        id: 1,
        apub_id: aid("https://faraway.example/c/pics", "faraway.example"),
        local: false,
        deleted: false,
        removed: true,
        moderators: vec![],
    });
    db.persons.push(Person {
        id: 10,
        apub_id: aid("https://faraway.example/u/radmin", "faraway.example"),
        local: false,
        admin: true,
    });
    db.persons.push(Person {
        id: 11,
        apub_id: aid("https://local.example/u/ladmin", "local.example"),
        local: true,
        admin: true,
    });
    db
}

fn undo_remove_activity(actor_text: &str, actor_domain: &str, id_text: &str) -> UndoDelete {
    let actor = ApubId { text: actor_text.to_string(), domain: actor_domain.to_string() };
    UndoDelete {
        to: PublicUrl::Public,
        object: Delete {
            to: PublicUrl::Public,
            object: aid("https://faraway.example/c/pics", "faraway.example"),
            cc: aid("https://faraway.example/c/pics", "faraway.example"),
            summary: Some("restored".to_string()),
            common: ActivityCommonFields {
                id: ApubId {
                    text: format!("{}/inner", id_text),
                    domain: actor_domain.to_string(),
                },
                actor: actor.clone(),
            },
        },
        cc: aid("https://faraway.example/c/pics", "faraway.example"),
        common: ActivityCommonFields {
            id: ApubId { text: id_text.to_string(), domain: actor_domain.to_string() },
            actor,
        },
    }
}

#[test]
fn undo_remove_remote_community_remote_admin_rejected() {
    let db = remote_community_world();
    let remote = empty_remote();
    let mut counter = RequestCounter::new(5);
    let undo = undo_remove_activity(
        "https://faraway.example/u/radmin",
        "faraway.example",
        "https://faraway.example/activities/u1",
    );
    let r = undo.verify(&db, &remote, &mut counter);
    assert_eq!(r, Err(ActivityError::NotAuthorized));
}

#[test]
fn undo_remove_remote_community_local_admin_succeeds() {
    let mut db = remote_community_world();
    let remote = empty_remote();
    let mut counter = RequestCounter::new(5);
    let undo = undo_remove_activity(
        "https://local.example/u/ladmin",
        "local.example",
        "https://local.example/activities/u2",
    );
    assert_eq!(undo.verify(&db, &remote, &mut counter), Ok(()));
    let fd = aid("https://local.example/activities/z1", "local.example");
    let fu = aid("https://local.example/activities/z2", "local.example");
    let effects = undo.receive(&mut db, &remote, fd, fu, &mut counter).unwrap();
    assert!(!db.communities[0].removed);
    assert_eq!(effects.notifications.len(), 1);
    assert_eq!(effects.notifications[0].op, UserOperationCrud::EditCommunity);
    assert_eq!(effects.forwards.len(), 0);
}

#[test]
fn undo_remove_local_community_over_federation_rejected() {
    // Restoring a local community is a local admin decision; a federated
    // undo-remove is refused at application time.
    let mut db = world();
    db.communities[0].removed = true;
    let r = UndoDelete::receive_undo_remove_action(
        &mut db,
        &aid("https://local.example/c/c1", "local.example"),
    );
    assert_eq!(r.err(), Some(ActivityError::NotAuthorized));
    assert!(db.communities[0].removed);
}

#[test]
fn unknown_object_is_unresolvable() {
    let db = world();
    let remote = empty_remote();
    let mut counter = RequestCounter::new(5);
    let activity = Delete {
        to: PublicUrl::Public,
        object: aid("https://local.example/post/999", "local.example"),
        cc: aid("https://local.example/c/c1", "local.example"),
        summary: None,
        common: ActivityCommonFields {
            id: aid("https://remote.example/activities/q", "remote.example"),
            actor: aid("https://remote.example/u/mod", "remote.example"),
        },
    };
    let r = activity.verify(&db, &remote, &mut counter);
    assert_eq!(r, Err(ActivityError::UnresolvableObject));
}

#[test]
fn blocked_domain_is_invalid_actor() {
    let mut db = world();
    db.blocked_domains.push("remote.example".to_string());
    let remote = empty_remote();
    let mut counter = RequestCounter::new(5);
    let activity = Delete {
        to: PublicUrl::Public,
        object: aid("https://local.example/post/2", "local.example"),
        cc: aid("https://local.example/c/c1", "local.example"),
        summary: Some("spam".to_string()),
        common: ActivityCommonFields {
            id: aid("https://remote.example/activities/b", "remote.example"),
            actor: aid("https://remote.example/u/mod", "remote.example"),
        },
    };
    let r = activity.verify(&db, &remote, &mut counter);
    assert_eq!(r, Err(ActivityError::InvalidActor));
}

#[test]
fn non_moderator_mod_action_not_authorized() {
    let mut db = world();
    db.persons.push(Person {
        id: 50,
        apub_id: aid("https://elsewhere.example/u/meddler", "elsewhere.example"),
        local: false,
        admin: false,
    });
    let remote = empty_remote();
    let mut counter = RequestCounter::new(5);
    let activity = Delete {
        to: PublicUrl::Public,
        object: aid("https://local.example/post/2", "local.example"),
        cc: aid("https://local.example/c/c1", "local.example"),
        summary: Some("spam".to_string()),
        common: ActivityCommonFields {
            id: aid("https://elsewhere.example/activities/m", "elsewhere.example"),
            actor: aid("https://elsewhere.example/u/meddler", "elsewhere.example"),
        },
    };
    let r = activity.verify(&db, &remote, &mut counter);
    assert_eq!(r, Err(ActivityError::NotAuthorized));
}

#[test]
fn undo_of_never_deleted_object_is_tolerated() {
    // Out-of-order delivery: undoing an object that was never deleted is
    // accepted as an idempotent no-op rather than rejected, and still
    // notifies once.
    let mut db = world();
    let remote = empty_remote();
    let mut counter = RequestCounter::new(5);
    let undo = UndoDelete {
        to: PublicUrl::Public,
        object: Delete {
            to: PublicUrl::Public,
            object: aid("https://local.example/post/2", "local.example"),
            cc: aid("https://local.example/c/c1", "local.example"),
            summary: None,
            common: ActivityCommonFields {
                id: aid("https://local.example/activities/i1", "local.example"),
                actor: aid("https://local.example/u/m1", "local.example"),
            },
        },
        cc: aid("https://local.example/c/c1", "local.example"),
        common: ActivityCommonFields {
            id: aid("https://local.example/activities/i2", "local.example"),
            actor: aid("https://local.example/u/m1", "local.example"),
        },
    };
    assert_eq!(undo.verify(&db, &remote, &mut counter), Ok(()));
    let fd = aid("https://local.example/activities/i3", "local.example");
    let fu = aid("https://local.example/activities/i4", "local.example");
    let effects = undo.receive(&mut db, &remote, fd, fu, &mut counter).unwrap();
    assert!(!db.posts[0].deleted);
    assert_eq!(effects.notifications.len(), 1);
    assert_eq!(effects.notifications[0].op, UserOperationCrud::EditPost);
}

#[test]
fn comment_remove_and_undo_remove() {
    let mut db = world();
    db.comments.push(fed_deletion::model::Comment {
        id: 3,
        apub_id: aid("https://local.example/comment/3", "local.example"),
        post_id: 2,
        creator_id: 10,
        local: true,
        deleted: false,
        removed: false,
    });
    let remote = empty_remote();
    let mut counter = RequestCounter::new(5);
    let delete = Delete {
        to: PublicUrl::Public,
        object: aid("https://local.example/comment/3", "local.example"),
        cc: aid("https://local.example/c/c1", "local.example"),
        summary: Some("off topic".to_string()),
        common: ActivityCommonFields {
            id: aid("https://remote.example/activities/c1", "remote.example"),
            actor: aid("https://remote.example/u/mod", "remote.example"),
        },
    };
    assert_eq!(delete.verify(&db, &remote, &mut counter), Ok(()));
    let fd = || aid("https://local.example/activities/c2", "local.example");
    let fu = || aid("https://local.example/activities/c3", "local.example");
    let effects = delete.receive(&mut db, &remote, fd(), fu(), &mut counter).unwrap();
    assert!(db.comments[0].removed);
    assert_eq!(db.mod_log.len(), 1);
    assert_eq!(db.mod_log[0].object, DeletableObjects::Comment(3));
    assert_eq!(db.mod_log[0].reason.as_deref(), Some("off topic"));
    assert_eq!(effects.notifications[0].op, UserOperationCrud::RemoveComment);
    let undo = UndoDelete {
        to: PublicUrl::Public,
        object: delete,
        cc: aid("https://local.example/c/c1", "local.example"),
        common: ActivityCommonFields {
            id: aid("https://remote.example/activities/c4", "remote.example"),
            actor: aid("https://remote.example/u/mod", "remote.example"),
        },
    };
    let effects = undo.receive(&mut db, &remote, fd(), fu(), &mut counter).unwrap();
    assert!(!db.comments[0].removed);
    assert_eq!(effects.notifications[0].op, UserOperationCrud::EditComment);
}

#[test]
fn storage_error_on_missing_row() {
    let mut db = world();
    let r = db.update_community(999, TargetFlag::Deleted, true);
    assert_eq!(r, Err(ActivityError::StorageError));
}

#[test]
fn fetch_budget_exhaustion_fails_the_activity() {
    // The actor is only known remotely: with no fetch budget left the
    // liveness check fails the activity; with one unit it fetches and passes.
    let mut db = empty_db();
    db.communities.push(Community {
        id: 1,
        apub_id: aid("https://faraway.example/c/pics", "faraway.example"),
        local: false,
        deleted: false,
        removed: false,
        moderators: vec![],
    });
    let remote = RemoteServers {
        communities: vec![],
        persons: vec![Person {
            id: 5,
            apub_id: aid("https://faraway.example/c/pics", "faraway.example"),
            local: false,
            admin: false,
        }],
    };
    let activity = Delete {
        to: PublicUrl::Public,
        object: aid("https://faraway.example/c/pics", "faraway.example"),
        cc: aid("https://faraway.example/c/pics", "faraway.example"),
        summary: None,
        common: ActivityCommonFields {
            id: aid("https://faraway.example/activities/s", "faraway.example"),
            actor: aid("https://faraway.example/c/pics", "faraway.example"),
        },
    };
    let mut exhausted = RequestCounter::new(0);
    let r = activity.verify(&db, &remote, &mut exhausted);
    assert_eq!(r, Err(ActivityError::UnresolvableObject));
    let mut fresh = RequestCounter::new(1);
    assert_eq!(activity.verify(&db, &remote, &mut fresh), Ok(()));
    assert_eq!(fresh.used, 1);
}

#[test]
fn resolver_mirrors_remote_person_once() {
    let mut db = world();
    let remote = RemoteServers {
        communities: vec![],
        persons: vec![Person {
            id: 5,
            apub_id: aid("https://faraway.example/u/visitor", "faraway.example"),
            local: true,
            admin: true,
        }],
    };
    let mut counter = RequestCounter::new(3);
    let a = aid("https://faraway.example/u/visitor", "faraway.example");
    let pid = fed_deletion::remote::get_or_fetch_and_upsert_person(&mut db, &remote, &a, &mut counter)
        .expect("fetch succeeds");
    // The mirror row gets a fresh local id and is never local.
    assert_eq!(pid, 100);
    assert_eq!(db.next_id, 101);
    let mirrored = db.persons.iter().find(|p| p.id == 100).unwrap();
    assert!(!mirrored.local);
    assert!(mirrored.admin);
    assert_eq!(counter.used, 1);
    // A second resolution is a cache hit: no budget is consumed.
    let pid2 = fed_deletion::remote::get_or_fetch_and_upsert_person(&mut db, &remote, &a, &mut counter)
        .expect("cache hit");
    assert_eq!(pid2, 100);
    assert_eq!(counter.used, 1);
}

#[test]
fn remote_mod_delete_of_local_community_is_forwarded() {
    // The community-targeted Delete shape: a remote moderator deletes a local
    // community; the server applies it and relays a Delete to its followers.
    let mut db = world();
    let remote = empty_remote();
    let mut counter = RequestCounter::new(5);
    let activity = DeleteCommunity {
        to: PublicUrl::Public,
        object: aid("https://local.example/c/c1", "local.example"),
        cc: aid("https://local.example/c/c1", "local.example"),
        common: ActivityCommonFields {
            id: aid("https://remote.example/activities/dc", "remote.example"),
            actor: aid("https://remote.example/u/mod", "remote.example"),
        },
    };
    assert_eq!(activity.verify(&db), Ok(()));
    let fwd = aid("https://local.example/activities/fw", "local.example");
    let effects = activity.receive(&mut db, &remote, fwd, &mut counter).unwrap();
    assert!(db.communities[0].deleted);
    assert_eq!(effects.notifications.len(), 1);
    assert_eq!(effects.notifications[0].op, UserOperationCrud::DeleteCommunity);
    assert_eq!(effects.notifications[0].person_id, Some(20));
    assert_eq!(effects.forwards.len(), 1);
    assert_eq!(effects.forwards[0].community_id, 1);
}

#[test]
fn unknown_community_delete_refetches_mirror() {
    // The community is not known locally: the remote record is fetched,
    // mirrored as non-local, and the mirror is marked deleted.
    let mut db = world();
    let remote = RemoteServers {
        communities: vec![Community {
            id: 9,
            apub_id: aid("https://faraway.example/c/pics", "faraway.example"),
            local: true,
            deleted: false,
            removed: false,
            moderators: vec![],
        }],
        persons: vec![],
    };
    let mut counter = RequestCounter::new(5);
    let activity = DeleteCommunity {
        to: PublicUrl::Public,
        object: aid("https://faraway.example/c/pics", "faraway.example"),
        cc: aid("https://faraway.example/followers", "faraway.example"),
        common: ActivityCommonFields {
            id: aid("https://faraway.example/activities/dc2", "faraway.example"),
            actor: aid("https://faraway.example/c/pics", "faraway.example"),
        },
    };
    assert_eq!(activity.verify(&db), Ok(()));
    let fwd = aid("https://local.example/activities/fw2", "local.example");
    let effects = activity.receive(&mut db, &remote, fwd, &mut counter).unwrap();
    let mirror = db.communities.iter().find(|c| c.id == 100).expect("mirror row");
    assert!(!mirror.local);
    assert!(mirror.deleted);
    assert_eq!(mirror.apub_id.text, "https://faraway.example/c/pics");
    assert_eq!(effects.notifications.len(), 1);
    assert_eq!(effects.notifications[0].object_id, 100);
    assert_eq!(effects.forwards.len(), 0);
    assert_eq!(counter.used, 1);
}

#[test]
fn cross_domain_audience_is_forgery() {
    // Known community, but the recipient collection lives on another domain.
    let db = world();
    let activity = DeleteCommunity {
        to: PublicUrl::Public,
        object: aid("https://local.example/c/c1", "local.example"),
        cc: aid("https://other.example/c/c1", "other.example"),
        common: ActivityCommonFields {
            id: aid("https://remote.example/activities/cf", "remote.example"),
            actor: aid("https://remote.example/u/mod", "remote.example"),
        },
    };
    assert_eq!(activity.verify(&db), Err(ActivityError::CrossDomainForgery));
}
