//! The properties the deletion core guarantees across calls: deletion is
//! idempotent under replay, an undo restores the flags however often the
//! original Delete was replayed, and a remote admin identity can never undo
//! the removal of a remote-origin community.

use vstd::prelude::*;
use crate::ids::ApubId;
use crate::model::{
    TargetFlag, UserOperationCrud, comment_with_flag, community_with_flag, post_with_flag,
};
use crate::db::{
    DbView, comment_by_id, comment_idx_by_id, comments_has_id, communities_has_apub,
    communities_has_id, community_by_apub, community_by_id, community_idx_by_id,
    lemma_comment_at, lemma_community_at, lemma_post_at, persons_has_apub, person_by_apub,
    posts_has_id, post_by_id, post_idx_by_id, with_comment_flag, with_community_flag,
    with_post_flag,
};
use crate::remote::RemoteView;
use crate::activities::spec_verify_delete_activity;
use crate::deletion::spec_receive_undo_remove;
use crate::RequestCounter;

verus! {

/// A flag write touches exactly one community row: the table stays
/// well-formed, the row keeps its place, and only the targeted flag changes.
pub proof fn lemma_community_flag_props(db: DbView, cid: u64, flag: TargetFlag, v: bool)
    requires
        db.wf(),
        communities_has_id(db.communities, cid),
    ensures
        with_community_flag(db, cid, flag, v).wf(),
        communities_has_id(with_community_flag(db, cid, flag, v).communities, cid),
        community_idx_by_id(with_community_flag(db, cid, flag, v).communities, cid)
            == community_idx_by_id(db.communities, cid),
        community_by_id(with_community_flag(db, cid, flag, v).communities, cid)
            == community_with_flag(community_by_id(db.communities, cid), flag, v),
{
    let s = db.communities;
    let i = community_idx_by_id(s, cid);
    assert(0 <= i < s.len() && s[i].id == cid);
    let c2 = community_with_flag(community_by_id(s, cid), flag, v);
    let s2 = s.update(i, c2);
    assert(c2.id == cid);
    assert forall|a: int, b: int| 0 <= a < s2.len() && 0 <= b < s2.len() && a != b
        implies s2[a].id != s2[b].id && s2[a].apub_id@ != s2[b].apub_id@ by {
        assert(s2[a] == if a == i {
            c2
        } else {
            s[a]
        });
        assert(s2[b] == if b == i {
            c2
        } else {
            s[b]
        });
    }
    assert forall|k: int| 0 <= k < s2.len() implies s2[k].id < db.next_id by {
        assert(s2[k] == if k == i {
            c2
        } else {
            s[k]
        });
    }
    assert(s2[i].id == cid);
    lemma_community_at(s2, i, cid);
}

/// Writing the flag twice: the second write wins, and the first leaves no
/// trace.
pub proof fn lemma_community_flag_overwrite(db: DbView, cid: u64, flag: TargetFlag, v1: bool, v2: bool)
    requires
        db.wf(),
        communities_has_id(db.communities, cid),
    ensures
        with_community_flag(with_community_flag(db, cid, flag, v1), cid, flag, v2)
            == with_community_flag(db, cid, flag, v2),
{
    lemma_community_flag_props(db, cid, flag, v1);
    let db1 = with_community_flag(db, cid, flag, v1);
    let i = community_idx_by_id(db.communities, cid);
    let c = community_by_id(db.communities, cid);
    assert(community_with_flag(community_with_flag(c, flag, v1), flag, v2)
        == community_with_flag(c, flag, v2));
    assert(with_community_flag(db1, cid, flag, v2).communities =~= with_community_flag(
        db,
        cid,
        flag,
        v2,
    ).communities);
    assert(with_community_flag(db1, cid, flag, v2) =~= with_community_flag(db, cid, flag, v2));
}

/// Applying the same Delete twice yields the same terminal state: the
/// storage layer is asked for the very same `deleted == true` write both
/// times, and the second application changes nothing.
pub proof fn lemma_delete_replay_idempotent_community(db: DbView, cid: u64)
    requires
        db.wf(),
        communities_has_id(db.communities, cid),
    ensures
        with_community_flag(
            with_community_flag(db, cid, TargetFlag::Deleted, true),
            cid,
            TargetFlag::Deleted,
            true,
        ) == with_community_flag(db, cid, TargetFlag::Deleted, true),
        community_by_id(
            with_community_flag(db, cid, TargetFlag::Deleted, true).communities,
            cid,
        ).deleted,
{
    lemma_community_flag_overwrite(db, cid, TargetFlag::Deleted, true, true);
    lemma_community_flag_props(db, cid, TargetFlag::Deleted, true);
}

/// The same idempotence for posts.
pub proof fn lemma_delete_replay_idempotent_post(db: DbView, pid: u64)
    requires
        db.wf(),
        posts_has_id(db.posts, pid),
    ensures
        with_post_flag(
            with_post_flag(db, pid, TargetFlag::Deleted, true),
            pid,
            TargetFlag::Deleted,
            true,
        ) == with_post_flag(db, pid, TargetFlag::Deleted, true),
        post_by_id(with_post_flag(db, pid, TargetFlag::Deleted, true).posts, pid).deleted,
{
    let s = db.posts;
    let i = post_idx_by_id(s, pid);
    assert(0 <= i < s.len() && s[i].id == pid);
    let p2 = post_with_flag(post_by_id(s, pid), TargetFlag::Deleted, true);
    let s2 = s.update(i, p2);
    assert forall|a: int, b: int| 0 <= a < s2.len() && 0 <= b < s2.len() && a != b
        implies s2[a].id != s2[b].id && s2[a].apub_id@ != s2[b].apub_id@ by {
        assert(s2[a] == if a == i {
            p2
        } else {
            s[a]
        });
        assert(s2[b] == if b == i {
            p2
        } else {
            s[b]
        });
    }
    assert(s2[i].id == pid);
    lemma_post_at(s2, i, pid);
    let db1 = with_post_flag(db, pid, TargetFlag::Deleted, true);
    assert(post_with_flag(p2, TargetFlag::Deleted, true) == p2);
    assert(with_post_flag(db1, pid, TargetFlag::Deleted, true).posts =~= db1.posts);
    assert(with_post_flag(db1, pid, TargetFlag::Deleted, true) =~= db1);
}

/// The same idempotence for comments.
pub proof fn lemma_delete_replay_idempotent_comment(db: DbView, cmid: u64)
    requires
        db.wf(),
        comments_has_id(db.comments, cmid),
    ensures
        with_comment_flag(
            with_comment_flag(db, cmid, TargetFlag::Deleted, true),
            cmid,
            TargetFlag::Deleted,
            true,
        ) == with_comment_flag(db, cmid, TargetFlag::Deleted, true),
        comment_by_id(
            with_comment_flag(db, cmid, TargetFlag::Deleted, true).comments,
            cmid,
        ).deleted,
{
    let s = db.comments;
    let i = comment_idx_by_id(s, cmid);
    assert(0 <= i < s.len() && s[i].id == cmid);
    let c2 = comment_with_flag(comment_by_id(s, cmid), TargetFlag::Deleted, true);
    let s2 = s.update(i, c2);
    assert forall|a: int, b: int| 0 <= a < s2.len() && 0 <= b < s2.len() && a != b
        implies s2[a].id != s2[b].id && s2[a].apub_id@ != s2[b].apub_id@ by {
        assert(s2[a] == if a == i {
            c2
        } else {
            s[a]
        });
        assert(s2[b] == if b == i {
            c2
        } else {
            s[b]
        });
    }
    assert(s2[i].id == cmid);
    lemma_comment_at(s2, i, cmid);
    let db1 = with_comment_flag(db, cmid, TargetFlag::Deleted, true);
    assert(comment_with_flag(c2, TargetFlag::Deleted, true) == c2);
    assert(with_comment_flag(db1, cmid, TargetFlag::Deleted, true).comments =~= db1.comments);
    assert(with_comment_flag(db1, cmid, TargetFlag::Deleted, true) =~= db1);
}

/// The community after n replays of the same flag write.
pub open spec fn replay_community_flag(
    db: DbView,
    cid: u64,
    flag: TargetFlag,
    v: bool,
    n: nat,
) -> DbView
    decreases n,
{
    if n == 0 {
        db
    } else {
        with_community_flag(
            replay_community_flag(db, cid, flag, v, (n - 1) as nat),
            cid,
            flag,
            v,
        )
    }
}

/// However many times the original Delete was replayed, one Undo restores
/// the community: afterwards `deleted` is false and `removed` is exactly what
/// it was before the whole exchange.
pub proof fn lemma_undo_restores_after_replays(db: DbView, cid: u64, n: nat)
    requires
        db.wf(),
        communities_has_id(db.communities, cid),
        n >= 1,
    ensures
        with_community_flag(
            replay_community_flag(db, cid, TargetFlag::Deleted, true, n),
            cid,
            TargetFlag::Deleted,
            false,
        ) == with_community_flag(db, cid, TargetFlag::Deleted, false),
        community_by_id(
            with_community_flag(db, cid, TargetFlag::Deleted, false).communities,
            cid,
        ).deleted == false,
        community_by_id(
            with_community_flag(db, cid, TargetFlag::Deleted, false).communities,
            cid,
        ).removed == community_by_id(db.communities, cid).removed,
    decreases n,
{
    lemma_community_flag_props(db, cid, TargetFlag::Deleted, false);
    if n == 1 {
        lemma_community_flag_overwrite(db, cid, TargetFlag::Deleted, true, false);
    } else {
        lemma_undo_restores_after_replays(db, cid, (n - 1) as nat);
        let dbn1 = replay_community_flag(db, cid, TargetFlag::Deleted, true, (n - 1) as nat);
        lemma_replay_preserves_wf(db, cid, TargetFlag::Deleted, true, (n - 1) as nat);
        lemma_community_flag_overwrite(dbn1, cid, TargetFlag::Deleted, true, false);
    }
}

/// Replays keep the table well-formed and the row present.
pub proof fn lemma_replay_preserves_wf(db: DbView, cid: u64, flag: TargetFlag, v: bool, n: nat)
    requires
        db.wf(),
        communities_has_id(db.communities, cid),
    ensures
        replay_community_flag(db, cid, flag, v, n).wf(),
        communities_has_id(replay_community_flag(db, cid, flag, v, n).communities, cid),
    decreases n,
{
    if n > 0 {
        lemma_replay_preserves_wf(db, cid, flag, v, (n - 1) as nat);
        lemma_community_flag_props(
            replay_community_flag(db, cid, flag, v, (n - 1) as nat),
            cid,
            flag,
            v,
        );
    }
}

/// A remote admin identity can never undo the removal of a remote-origin
/// community: whatever else holds, the verifier rejects the activity.
pub proof fn lemma_undo_remove_remote_admin_rejected(
    db: DbView,
    rem: RemoteView,
    object: ApubId,
    cc: ApubId,
    actor: ApubId,
    cnt: RequestCounter,
)
    requires
        db.wf(),
        communities_has_apub(db.communities, object@),
        !community_by_apub(db.communities, object@).local,
        persons_has_apub(db.persons, actor@),
        !person_by_apub(db.persons, actor@).local,
    ensures
        spec_verify_delete_activity(db, rem, object@, cc@, actor@, true, true, cnt).0 is Err,
{
    // Unfolds directly: every earlier check that fails already yields an
    // error, and when they all pass, the undo-remove of a non-local community
    // reaches the local-admin gate, which a non-local identity cannot pass.
}

/// Undo-remove applied to a remote-origin community restores it and emits
/// exactly one notification, tagged EditCommunity.
pub proof fn lemma_undo_remove_remote_restores(db: DbView, object: ApubId)
    requires
        db.wf(),
        communities_has_apub(db.communities, object@),
        !community_by_apub(db.communities, object@).local,
    ensures
        ({
            let m = spec_receive_undo_remove(db, object);
            let cid = community_by_apub(db.communities, object@).id;
            &&& m.0 is Ok
            &&& m.0->Ok_0.notifications.len() == 1
            &&& m.0->Ok_0.notifications[0].op == UserOperationCrud::EditCommunity
            &&& m.0->Ok_0.forwards.len() == 0
            &&& m.1 == with_community_flag(db, cid, TargetFlag::Removed, false)
            &&& community_by_id(m.1.communities, cid).removed == false
        }),
{
    let c = community_by_apub(db.communities, object@);
    let j = choose|j: int|
        0 <= j < db.communities.len() && db.communities[j].apub_id@ == object@;
    assert(0 <= j < db.communities.len() && db.communities[j].apub_id@ == object@);
    assert(communities_has_id(db.communities, c.id));
    lemma_community_flag_props(db, c.id, TargetFlag::Removed, false);
}

} // verus!
