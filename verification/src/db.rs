//! The local storage layer as the deletion core sees it: one table per object
//! kind, looked up by local row id or by federation identifier, plus the
//! moderation log and the instance's blocked-domain list. All serialization
//! the core needs is re-derived from this state on every request.

use vstd::prelude::*;
use crate::ids::{ApubId, ApubIdView, id_eq};
use crate::model::{
    Comment, Community, DeletableObjects, ModLogEntry, Person, Post, TargetFlag,
    comment_with_flag, community_with_flag, post_with_flag,
};
use crate::ActivityError;

verus! {

pub struct Database {
    /// The next fresh row id; every stored row has a smaller id.
    pub next_id: u64,
    pub communities: Vec<Community>,
    pub posts: Vec<Post>,
    pub comments: Vec<Comment>,
    pub persons: Vec<Person>,
    pub mod_log: Vec<ModLogEntry>,
    /// Domains this instance refuses activities from.
    pub blocked_domains: Vec<String>,
}

#[verifier::ext_equal]
pub ghost struct DbView {
    pub next_id: u64,
    pub communities: Seq<Community>,
    pub posts: Seq<Post>,
    pub comments: Seq<Comment>,
    pub persons: Seq<Person>,
    pub mod_log: Seq<ModLogEntry>,
    pub blocked_domains: Seq<Seq<char>>,
}

impl View for Database {
    type V = DbView;

    open spec fn view(&self) -> DbView {
        DbView {
            next_id: self.next_id,
            communities: self.communities@,
            posts: self.posts@,
            comments: self.comments@,
            persons: self.persons@,
            mod_log: self.mod_log@,
            blocked_domains: self.blocked_domains.deep_view(),
        }
    }
}

// ---------------------------------------------------------------------------
// Lookups, at the specification level: existence, the matching index, and the
// matching row, for each table, by row id and by federation identifier.
// ---------------------------------------------------------------------------

pub open spec fn communities_has_id(s: Seq<Community>, id: u64) -> bool {
    exists|j: int| 0 <= j < s.len() && s[j].id == id
}

pub open spec fn community_idx_by_id(s: Seq<Community>, id: u64) -> int {
    choose|j: int| 0 <= j < s.len() && s[j].id == id
}

pub open spec fn community_by_id(s: Seq<Community>, id: u64) -> Community {
    s[community_idx_by_id(s, id)]
}

pub open spec fn communities_has_apub(s: Seq<Community>, a: ApubIdView) -> bool {
    exists|j: int| 0 <= j < s.len() && s[j].apub_id@ == a
}

pub open spec fn community_by_apub(s: Seq<Community>, a: ApubIdView) -> Community {
    s[choose|j: int| 0 <= j < s.len() && s[j].apub_id@ == a]
}

pub open spec fn posts_has_id(s: Seq<Post>, id: u64) -> bool {
    exists|j: int| 0 <= j < s.len() && s[j].id == id
}

pub open spec fn post_idx_by_id(s: Seq<Post>, id: u64) -> int {
    choose|j: int| 0 <= j < s.len() && s[j].id == id
}

pub open spec fn post_by_id(s: Seq<Post>, id: u64) -> Post {
    s[post_idx_by_id(s, id)]
}

pub open spec fn posts_has_apub(s: Seq<Post>, a: ApubIdView) -> bool {
    exists|j: int| 0 <= j < s.len() && s[j].apub_id@ == a
}

pub open spec fn post_by_apub(s: Seq<Post>, a: ApubIdView) -> Post {
    s[choose|j: int| 0 <= j < s.len() && s[j].apub_id@ == a]
}

pub open spec fn comments_has_id(s: Seq<Comment>, id: u64) -> bool {
    exists|j: int| 0 <= j < s.len() && s[j].id == id
}

pub open spec fn comment_idx_by_id(s: Seq<Comment>, id: u64) -> int {
    choose|j: int| 0 <= j < s.len() && s[j].id == id
}

pub open spec fn comment_by_id(s: Seq<Comment>, id: u64) -> Comment {
    s[comment_idx_by_id(s, id)]
}

pub open spec fn comments_has_apub(s: Seq<Comment>, a: ApubIdView) -> bool {
    exists|j: int| 0 <= j < s.len() && s[j].apub_id@ == a
}

pub open spec fn comment_by_apub(s: Seq<Comment>, a: ApubIdView) -> Comment {
    s[choose|j: int| 0 <= j < s.len() && s[j].apub_id@ == a]
}

pub open spec fn persons_has_id(s: Seq<Person>, id: u64) -> bool {
    exists|j: int| 0 <= j < s.len() && s[j].id == id
}

pub open spec fn person_by_id(s: Seq<Person>, id: u64) -> Person {
    s[choose|j: int| 0 <= j < s.len() && s[j].id == id]
}

pub open spec fn persons_has_apub(s: Seq<Person>, a: ApubIdView) -> bool {
    exists|j: int| 0 <= j < s.len() && s[j].apub_id@ == a
}

pub open spec fn person_by_apub(s: Seq<Person>, a: ApubIdView) -> Person {
    s[choose|j: int| 0 <= j < s.len() && s[j].apub_id@ == a]
}

// ---------------------------------------------------------------------------
// Well-formedness: row ids are unique per table and below `next_id`, and
// federation identifiers are unique per table.
// ---------------------------------------------------------------------------

pub open spec fn distinct_communities(s: Seq<Community>) -> bool {
    forall|i: int, j: int|
        0 <= i < s.len() && 0 <= j < s.len() && i != j ==> s[i].id != s[j].id
            && s[i].apub_id@ != s[j].apub_id@
}

pub open spec fn distinct_posts(s: Seq<Post>) -> bool {
    forall|i: int, j: int|
        0 <= i < s.len() && 0 <= j < s.len() && i != j ==> s[i].id != s[j].id
            && s[i].apub_id@ != s[j].apub_id@
}

pub open spec fn distinct_comments(s: Seq<Comment>) -> bool {
    forall|i: int, j: int|
        0 <= i < s.len() && 0 <= j < s.len() && i != j ==> s[i].id != s[j].id
            && s[i].apub_id@ != s[j].apub_id@
}

pub open spec fn distinct_persons(s: Seq<Person>) -> bool {
    forall|i: int, j: int|
        0 <= i < s.len() && 0 <= j < s.len() && i != j ==> s[i].id != s[j].id
            && s[i].apub_id@ != s[j].apub_id@
}

impl DbView {
    pub open spec fn ids_fresh(self) -> bool {
        &&& forall|i: int| 0 <= i < self.communities.len() ==> self.communities[i].id < self.next_id
        &&& forall|i: int| 0 <= i < self.posts.len() ==> self.posts[i].id < self.next_id
        &&& forall|i: int| 0 <= i < self.comments.len() ==> self.comments[i].id < self.next_id
        &&& forall|i: int| 0 <= i < self.persons.len() ==> self.persons[i].id < self.next_id
    }

    pub open spec fn wf(self) -> bool {
        &&& self.ids_fresh()
        &&& distinct_communities(self.communities)
        &&& distinct_posts(self.posts)
        &&& distinct_comments(self.comments)
        &&& distinct_persons(self.persons)
    }
}

// With unique ids, the chosen index of a lookup is the index of any matching
// row, so the exec finders below pin the spec-level lookups exactly.

pub proof fn lemma_community_at(s: Seq<Community>, i: int, id: u64)
    requires
        distinct_communities(s),
        0 <= i < s.len(),
        s[i].id == id,
    ensures
        communities_has_id(s, id),
        community_idx_by_id(s, id) == i,
        community_by_id(s, id) == s[i],
{
    assert(communities_has_id(s, id));
    let j = community_idx_by_id(s, id);
    assert(0 <= j < s.len() && s[j].id == id);
}

pub proof fn lemma_community_at_apub(s: Seq<Community>, i: int, a: ApubIdView)
    requires
        distinct_communities(s),
        0 <= i < s.len(),
        s[i].apub_id@ == a,
    ensures
        communities_has_apub(s, a),
        community_by_apub(s, a) == s[i],
{
    assert(communities_has_apub(s, a));
    let j = choose|j: int| 0 <= j < s.len() && s[j].apub_id@ == a;
    assert(0 <= j < s.len() && s[j].apub_id@ == a);
}

pub proof fn lemma_post_at(s: Seq<Post>, i: int, id: u64)
    requires
        distinct_posts(s),
        0 <= i < s.len(),
        s[i].id == id,
    ensures
        posts_has_id(s, id),
        post_idx_by_id(s, id) == i,
        post_by_id(s, id) == s[i],
{
    assert(posts_has_id(s, id));
    let j = post_idx_by_id(s, id);
    assert(0 <= j < s.len() && s[j].id == id);
}

pub proof fn lemma_post_at_apub(s: Seq<Post>, i: int, a: ApubIdView)
    requires
        distinct_posts(s),
        0 <= i < s.len(),
        s[i].apub_id@ == a,
    ensures
        posts_has_apub(s, a),
        post_by_apub(s, a) == s[i],
{
    assert(posts_has_apub(s, a));
    let j = choose|j: int| 0 <= j < s.len() && s[j].apub_id@ == a;
    assert(0 <= j < s.len() && s[j].apub_id@ == a);
}

pub proof fn lemma_comment_at(s: Seq<Comment>, i: int, id: u64)
    requires
        distinct_comments(s),
        0 <= i < s.len(),
        s[i].id == id,
    ensures
        comments_has_id(s, id),
        comment_idx_by_id(s, id) == i,
        comment_by_id(s, id) == s[i],
{
    assert(comments_has_id(s, id));
    let j = comment_idx_by_id(s, id);
    assert(0 <= j < s.len() && s[j].id == id);
}

pub proof fn lemma_comment_at_apub(s: Seq<Comment>, i: int, a: ApubIdView)
    requires
        distinct_comments(s),
        0 <= i < s.len(),
        s[i].apub_id@ == a,
    ensures
        comments_has_apub(s, a),
        comment_by_apub(s, a) == s[i],
{
    assert(comments_has_apub(s, a));
    let j = choose|j: int| 0 <= j < s.len() && s[j].apub_id@ == a;
    assert(0 <= j < s.len() && s[j].apub_id@ == a);
}

pub proof fn lemma_person_at(s: Seq<Person>, i: int, id: u64)
    requires
        distinct_persons(s),
        0 <= i < s.len(),
        s[i].id == id,
    ensures
        persons_has_id(s, id),
        person_by_id(s, id) == s[i],
{
    assert(persons_has_id(s, id));
    let j = choose|j: int| 0 <= j < s.len() && s[j].id == id;
    assert(0 <= j < s.len() && s[j].id == id);
}

pub proof fn lemma_person_at_apub(s: Seq<Person>, i: int, a: ApubIdView)
    requires
        distinct_persons(s),
        0 <= i < s.len(),
        s[i].apub_id@ == a,
    ensures
        persons_has_apub(s, a),
        person_by_apub(s, a) == s[i],
{
    assert(persons_has_apub(s, a));
    let j = choose|j: int| 0 <= j < s.len() && s[j].apub_id@ == a;
    assert(0 <= j < s.len() && s[j].apub_id@ == a);
}

// ---------------------------------------------------------------------------
// Exec finders, shared by the local tables and the remote registries.
// ---------------------------------------------------------------------------

pub fn find_community_by_id(v: &Vec<Community>, id: u64) -> (r: Option<usize>)
    ensures
        r matches Some(i) ==> i < v.len() && v@[i as int].id == id,
        r is None ==> !communities_has_id(v@, id),
{
    let mut i: usize = 0;
    while i < v.len()
        invariant
            i <= v.len(),
            forall|k: int| 0 <= k < i ==> v@[k].id != id,
        decreases v.len() - i,
    {
        if v[i].id == id {
            return Some(i);
        }
        i = i + 1;
    }
    None
}

pub fn find_community_by_apub(v: &Vec<Community>, a: &ApubId) -> (r: Option<usize>)
    ensures
        r matches Some(i) ==> i < v.len() && v@[i as int].apub_id@ == a@,
        r is None ==> !communities_has_apub(v@, a@),
{
    let mut i: usize = 0;
    while i < v.len()
        invariant
            i <= v.len(),
            forall|k: int| 0 <= k < i ==> v@[k].apub_id@ != a@,
        decreases v.len() - i,
    {
        if id_eq(&v[i].apub_id, a) {
            return Some(i);
        }
        i = i + 1;
    }
    None
}

pub fn find_post_by_id(v: &Vec<Post>, id: u64) -> (r: Option<usize>)
    ensures
        r matches Some(i) ==> i < v.len() && v@[i as int].id == id,
        r is None ==> !posts_has_id(v@, id),
{
    let mut i: usize = 0;
    while i < v.len()
        invariant
            i <= v.len(),
            forall|k: int| 0 <= k < i ==> v@[k].id != id,
        decreases v.len() - i,
    {
        if v[i].id == id {
            return Some(i);
        }
        i = i + 1;
    }
    None
}

pub fn find_post_by_apub(v: &Vec<Post>, a: &ApubId) -> (r: Option<usize>)
    ensures
        r matches Some(i) ==> i < v.len() && v@[i as int].apub_id@ == a@,
        r is None ==> !posts_has_apub(v@, a@),
{
    let mut i: usize = 0;
    while i < v.len()
        invariant
            i <= v.len(),
            forall|k: int| 0 <= k < i ==> v@[k].apub_id@ != a@,
        decreases v.len() - i,
    {
        if id_eq(&v[i].apub_id, a) {
            return Some(i);
        }
        i = i + 1;
    }
    None
}

pub fn find_comment_by_id(v: &Vec<Comment>, id: u64) -> (r: Option<usize>)
    ensures
        r matches Some(i) ==> i < v.len() && v@[i as int].id == id,
        r is None ==> !comments_has_id(v@, id),
{
    let mut i: usize = 0;
    while i < v.len()
        invariant
            i <= v.len(),
            forall|k: int| 0 <= k < i ==> v@[k].id != id,
        decreases v.len() - i,
    {
        if v[i].id == id {
            return Some(i);
        }
        i = i + 1;
    }
    None
}

pub fn find_comment_by_apub(v: &Vec<Comment>, a: &ApubId) -> (r: Option<usize>)
    ensures
        r matches Some(i) ==> i < v.len() && v@[i as int].apub_id@ == a@,
        r is None ==> !comments_has_apub(v@, a@),
{
    let mut i: usize = 0;
    while i < v.len()
        invariant
            i <= v.len(),
            forall|k: int| 0 <= k < i ==> v@[k].apub_id@ != a@,
        decreases v.len() - i,
    {
        if id_eq(&v[i].apub_id, a) {
            return Some(i);
        }
        i = i + 1;
    }
    None
}

pub fn find_person_by_id(v: &Vec<Person>, id: u64) -> (r: Option<usize>)
    ensures
        r matches Some(i) ==> i < v.len() && v@[i as int].id == id,
        r is None ==> !persons_has_id(v@, id),
{
    let mut i: usize = 0;
    while i < v.len()
        invariant
            i <= v.len(),
            forall|k: int| 0 <= k < i ==> v@[k].id != id,
        decreases v.len() - i,
    {
        if v[i].id == id {
            return Some(i);
        }
        i = i + 1;
    }
    None
}

pub fn find_person_by_apub(v: &Vec<Person>, a: &ApubId) -> (r: Option<usize>)
    ensures
        r matches Some(i) ==> i < v.len() && v@[i as int].apub_id@ == a@,
        r is None ==> !persons_has_apub(v@, a@),
{
    let mut i: usize = 0;
    while i < v.len()
        invariant
            i <= v.len(),
            forall|k: int| 0 <= k < i ==> v@[k].apub_id@ != a@,
        decreases v.len() - i,
    {
        if id_eq(&v[i].apub_id, a) {
            return Some(i);
        }
        i = i + 1;
    }
    None
}

// ---------------------------------------------------------------------------
// The storage transitions the deletion core performs: one flag update per
// table, a moderation-log append, and the resolver's mirror-row inserts.
// ---------------------------------------------------------------------------

/// The database with one community's flag updated.
pub open spec fn with_community_flag(db: DbView, id: u64, flag: TargetFlag, v: bool) -> DbView {
    DbView {
        communities: db.communities.update(
            community_idx_by_id(db.communities, id),
            community_with_flag(community_by_id(db.communities, id), flag, v),
        ),
        ..db
    }
}

pub open spec fn with_post_flag(db: DbView, id: u64, flag: TargetFlag, v: bool) -> DbView {
    DbView {
        posts: db.posts.update(
            post_idx_by_id(db.posts, id),
            post_with_flag(post_by_id(db.posts, id), flag, v),
        ),
        ..db
    }
}

pub open spec fn with_comment_flag(db: DbView, id: u64, flag: TargetFlag, v: bool) -> DbView {
    DbView {
        comments: db.comments.update(
            comment_idx_by_id(db.comments, id),
            comment_with_flag(comment_by_id(db.comments, id), flag, v),
        ),
        ..db
    }
}

/// The database with a moderation-log entry appended.
pub open spec fn with_mod_log(db: DbView, e: ModLogEntry) -> DbView {
    DbView { mod_log: db.mod_log.push(e), ..db }
}

impl Database {
    /// `updateDeletedFlag` / `updateRemovedFlag` for communities: writes the
    /// flag unconditionally (replays write the same value again) and fails
    /// only when no row has the id.
    pub fn update_community(&mut self, id: u64, flag: TargetFlag, v: bool) -> (r: Result<
        (),
        ActivityError,
    >)
        requires
            old(self)@.wf(),
        ensures
            final(self)@.wf(),
            r is Ok <==> communities_has_id(old(self)@.communities, id),
            r is Ok ==> final(self)@ == with_community_flag(old(self)@, id, flag, v),
            r is Err ==> final(self)@ == old(self)@ && r == Err::<(), ActivityError>(
                ActivityError::StorageError,
            ),
    {
        match find_community_by_id(&self.communities, id) {
            Some(i) => {
                proof {
                    lemma_community_at(self.communities@, i as int, id);
                }
                let mut c = self.communities.remove(i);
                match flag {
                    TargetFlag::Deleted => c.deleted = v,
                    TargetFlag::Removed => c.removed = v,
                }
                self.communities.insert(i, c);
                proof {
                    let s0 = old(self).communities@;
                    let c2 = community_with_flag(community_by_id(s0, id), flag, v);
                    assert(self.communities@ =~= s0.update(i as int, c2));
                    assert(self@ =~= with_community_flag(old(self)@, id, flag, v));
                    assert forall|a: int, b: int|
                        0 <= a < self.communities@.len() && 0 <= b < self.communities@.len() && a
                            != b implies self.communities@[a].id != self.communities@[b].id
                        && self.communities@[a].apub_id@ != self.communities@[b].apub_id@ by {
                        assert(self.communities@[a] == if a == i as int {
                            c2
                        } else {
                            s0[a]
                        });
                        assert(self.communities@[b] == if b == i as int {
                            c2
                        } else {
                            s0[b]
                        });
                    }
                    assert forall|k: int| 0 <= k < self.communities@.len()
                        implies self.communities@[k].id < self@.next_id by {
                        assert(self.communities@[k] == if k == i as int {
                            c2
                        } else {
                            s0[k]
                        });
                    }
                }
                Ok(())
            },
            None => Err(ActivityError::StorageError),
        }
    }

    /// The same flag write for posts.
    pub fn update_post(&mut self, id: u64, flag: TargetFlag, v: bool) -> (r: Result<
        (),
        ActivityError,
    >)
        requires
            old(self)@.wf(),
        ensures
            final(self)@.wf(),
            r is Ok <==> posts_has_id(old(self)@.posts, id),
            r is Ok ==> final(self)@ == with_post_flag(old(self)@, id, flag, v),
            r is Err ==> final(self)@ == old(self)@ && r == Err::<(), ActivityError>(
                ActivityError::StorageError,
            ),
    {
        match find_post_by_id(&self.posts, id) {
            Some(i) => {
                proof {
                    lemma_post_at(self.posts@, i as int, id);
                }
                let mut p = self.posts.remove(i);
                match flag {
                    TargetFlag::Deleted => p.deleted = v,
                    TargetFlag::Removed => p.removed = v,
                }
                self.posts.insert(i, p);
                proof {
                    let s0 = old(self).posts@;
                    let p2 = post_with_flag(post_by_id(s0, id), flag, v);
                    assert(self.posts@ =~= s0.update(i as int, p2));
                    assert(self@ =~= with_post_flag(old(self)@, id, flag, v));
                    assert forall|a: int, b: int|
                        0 <= a < self.posts@.len() && 0 <= b < self.posts@.len() && a != b
                        implies self.posts@[a].id != self.posts@[b].id && self.posts@[a].apub_id@
                        != self.posts@[b].apub_id@ by {
                        assert(self.posts@[a] == if a == i as int {
                            p2
                        } else {
                            s0[a]
                        });
                        assert(self.posts@[b] == if b == i as int {
                            p2
                        } else {
                            s0[b]
                        });
                    }
                    assert forall|k: int| 0 <= k < self.posts@.len() implies self.posts@[k].id
                        < self@.next_id by {
                        assert(self.posts@[k] == if k == i as int {
                            p2
                        } else {
                            s0[k]
                        });
                    }
                }
                Ok(())
            },
            None => Err(ActivityError::StorageError),
        }
    }

    /// The same flag write for comments.
    pub fn update_comment(&mut self, id: u64, flag: TargetFlag, v: bool) -> (r: Result<
        (),
        ActivityError,
    >)
        requires
            old(self)@.wf(),
        ensures
            final(self)@.wf(),
            r is Ok <==> comments_has_id(old(self)@.comments, id),
            r is Ok ==> final(self)@ == with_comment_flag(old(self)@, id, flag, v),
            r is Err ==> final(self)@ == old(self)@ && r == Err::<(), ActivityError>(
                ActivityError::StorageError,
            ),
    {
        match find_comment_by_id(&self.comments, id) {
            Some(i) => {
                proof {
                    lemma_comment_at(self.comments@, i as int, id);
                }
                let mut c = self.comments.remove(i);
                match flag {
                    TargetFlag::Deleted => c.deleted = v,
                    TargetFlag::Removed => c.removed = v,
                }
                self.comments.insert(i, c);
                proof {
                    let s0 = old(self).comments@;
                    let c2 = comment_with_flag(comment_by_id(s0, id), flag, v);
                    assert(self.comments@ =~= s0.update(i as int, c2));
                    assert(self@ =~= with_comment_flag(old(self)@, id, flag, v));
                    assert forall|a: int, b: int|
                        0 <= a < self.comments@.len() && 0 <= b < self.comments@.len() && a != b
                        implies self.comments@[a].id != self.comments@[b].id
                        && self.comments@[a].apub_id@ != self.comments@[b].apub_id@ by {
                        assert(self.comments@[a] == if a == i as int {
                            c2
                        } else {
                            s0[a]
                        });
                        assert(self.comments@[b] == if b == i as int {
                            c2
                        } else {
                            s0[b]
                        });
                    }
                    assert forall|k: int| 0 <= k < self.comments@.len()
                        implies self.comments@[k].id < self@.next_id by {
                        assert(self.comments@[k] == if k == i as int {
                            c2
                        } else {
                            s0[k]
                        });
                    }
                }
                Ok(())
            },
            None => Err(ActivityError::StorageError),
        }
    }

    /// `createModerationLogEntry`: appends one audit record.
    pub fn add_mod_log(&mut self, e: ModLogEntry)
        requires
            old(self)@.wf(),
        ensures
            final(self)@.wf(),
            final(self)@ == with_mod_log(old(self)@, e),
    {
        self.mod_log.push(e);
        proof {
            assert(self@ =~= with_mod_log(old(self)@, e));
        }
    }

    /// `readByFederationId`: resolves a federation identifier against the
    /// local tables, trying communities, then posts, then comments.
    pub fn read_by_apub_id(&self, a: &ApubId) -> (r: Option<DeletableObjects>)
        ensures
            match r {
                Some(DeletableObjects::Community(id)) => communities_has_apub(
                    self@.communities,
                    a@,
                ) && exists|j: int|
                    0 <= j < self@.communities.len() && self@.communities[j].apub_id@ == a@
                        && self@.communities[j].id == id,
                Some(DeletableObjects::Post(id)) => !communities_has_apub(self@.communities, a@)
                    && posts_has_apub(self@.posts, a@) && exists|j: int|
                    0 <= j < self@.posts.len() && self@.posts[j].apub_id@ == a@
                        && self@.posts[j].id == id,
                Some(DeletableObjects::Comment(id)) => !communities_has_apub(self@.communities, a@)
                    && !posts_has_apub(self@.posts, a@) && comments_has_apub(self@.comments, a@)
                    && exists|j: int|
                    0 <= j < self@.comments.len() && self@.comments[j].apub_id@ == a@
                        && self@.comments[j].id == id,
                None => !communities_has_apub(self@.communities, a@) && !posts_has_apub(
                    self@.posts,
                    a@,
                ) && !comments_has_apub(self@.comments, a@),
            },
    {
        if let Some(i) = find_community_by_apub(&self.communities, a) {
            let id = self.communities[i].id;
            proof {
                assert((i as int) < self@.communities.len() && self@.communities[i as int].apub_id@
                    == a@ && self@.communities[i as int].id == id);
            }
            return Some(DeletableObjects::Community(id));
        }
        if let Some(i) = find_post_by_apub(&self.posts, a) {
            let id = self.posts[i].id;
            proof {
                assert((i as int) < self@.posts.len() && self@.posts[i as int].apub_id@ == a@
                    && self@.posts[i as int].id == id);
            }
            return Some(DeletableObjects::Post(id));
        }
        if let Some(i) = find_comment_by_apub(&self.comments, a) {
            let id = self.comments[i].id;
            proof {
                assert((i as int) < self@.comments.len() && self@.comments[i as int].apub_id@
                    == a@ && self@.comments[i as int].id == id);
            }
            return Some(DeletableObjects::Comment(id));
        }
        None
    }
}

} // verus!
