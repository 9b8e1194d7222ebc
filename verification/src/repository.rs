//! The repository: five operations over one collection of documents.
//!
//! The collection's state is explicit — a sequence of stored posts, every
//! one carrying a distinct assigned identifier — and each operation's
//! contract states exactly what it returns and how it changes that state.

use vstd::prelude::*;

use crate::model::{with_id, Blog, BlogView};
use crate::oid::{parse_object_id, spec_parse_oid, valid_oid_str, PostId};

verus! {

/// What can go wrong in a repository operation. `InvalidInput` is reserved
/// for an empty identifier, rejected before the store is consulted;
/// `InvalidIdentifier` for a malformed one; `NotFound` for zero matches;
/// `StoreError` for a failed write.
#[derive(Clone, Copy, PartialEq, Eq, Structural, Debug)]
pub enum RepoError {
    InvalidInput,
    InvalidIdentifier,
    NotFound,
    StoreError,
}

/// Acknowledgment of an insert: the identifier the store assigned.
#[derive(Clone, Copy, PartialEq, Eq, Structural, Debug)]
pub struct InsertOneResult {
    pub inserted_id: PostId,
}

/// Outcome of an update: how many documents matched (0 or 1) and how many
/// were written.
#[derive(Clone, Copy, PartialEq, Eq, Structural, Debug)]
pub struct UpdateResult {
    pub matched_count: u64,
    pub modified_count: u64,
}

/// Outcome of a delete: how many documents were removed (0 or 1).
#[derive(Clone, Copy, PartialEq, Eq, Structural, Debug)]
pub struct DeleteResult {
    pub deleted_count: u64,
}

/// Every stored post carries an assigned identifier.
pub open spec fn all_assigned(s: Seq<BlogView>) -> bool {
    forall|i: int| 0 <= i < s.len() ==> (#[trigger] s[i].id) is Some
}

/// No two stored posts carry the same identifier.
pub open spec fn unique_ids(s: Seq<BlogView>) -> bool {
    forall|i: int, j: int|
        0 <= i < s.len() && 0 <= j < s.len() && i != j ==> (#[trigger] s[i].id) != (
        #[trigger] s[j].id)
}

/// The collection invariant visible to callers.
pub open spec fn inv_posts(s: Seq<BlogView>) -> bool {
    all_assigned(s) && unique_ids(s)
}

/// The index of the first stored post carrying `id`, if any.
pub open spec fn find_in(s: Seq<BlogView>, id: PostId) -> Option<int>
    decreases s.len(),
{
    if s.len() == 0 {
        None
    } else if s[0].id == Some(id) {
        Some(0)
    } else {
        match find_in(s.subrange(1, s.len() as int), id) {
            None => None,
            Some(i) => Some(i + 1),
        }
    }
}

/// Some stored post carries `id`.
pub open spec fn has_id(s: Seq<BlogView>, id: PostId) -> bool {
    find_in(s, id) is Some
}

/// The stored post carrying `id`, if any.
pub open spec fn spec_lookup(s: Seq<BlogView>, id: PostId) -> Option<BlogView> {
    match find_in(s, id) {
        None => None,
        Some(i) => Some(s[i]),
    }
}

/// Inserting appends the content of `b` under the fresh identifier `fresh`.
pub open spec fn spec_create(s: Seq<BlogView>, b: BlogView, fresh: PostId) -> Seq<BlogView> {
    s.push(with_id(b, fresh))
}

/// Updating replaces every mutable field of the matched post with the
/// content of `b`, keeping its identifier; with no match it changes nothing.
pub open spec fn spec_update(s: Seq<BlogView>, id: PostId, b: BlogView) -> Seq<BlogView> {
    match find_in(s, id) {
        None => s,
        Some(i) => s.update(i, with_id(b, id)),
    }
}

/// Deleting removes the matched post; with no match it changes nothing.
pub open spec fn spec_delete(s: Seq<BlogView>, id: PostId) -> Seq<BlogView> {
    match find_in(s, id) {
        None => s,
        Some(i) => s.remove(i),
    }
}

/// What `find_in` finds: a first match when it answers an index, no match
/// anywhere when it answers nothing.
pub proof fn lemma_find_in_props(s: Seq<BlogView>, id: PostId)
    ensures
        match find_in(s, id) {
            Some(i) => 0 <= i < s.len() && s[i].id == Some(id) && (forall|k: int|
                0 <= k < i ==> (#[trigger] s[k].id) != Some(id)),
            None => forall|k: int| 0 <= k < s.len() ==> (#[trigger] s[k].id) != Some(id),
        },
    decreases s.len(),
{
    if s.len() > 0 && s[0].id != Some(id) {
        lemma_find_in_props(s.subrange(1, s.len() as int), id);
        assert(forall|k: int|
            1 <= k < s.len() ==> s.subrange(1, s.len() as int)[k - 1] == (#[trigger] s[k]));
    }
}

/// `find_in` answers exactly the position of the first match.
pub proof fn lemma_find_in_first(s: Seq<BlogView>, id: PostId, j: int)
    requires
        0 <= j < s.len(),
        s[j].id == Some(id),
        forall|k: int| 0 <= k < j ==> (#[trigger] s[k].id) != Some(id),
    ensures
        find_in(s, id) == Some(j),
    decreases s.len(),
{
    if j > 0 {
        let t = s.subrange(1, s.len() as int);
        assert(forall|k: int| 1 <= k < s.len() ==> t[k - 1] == (#[trigger] s[k]));
        lemma_find_in_first(t, id, j - 1);
    }
}

/// The repository over one collection. The stored documents are explicit
/// state; [`MongoRepo::posts`] is their mathematical value, in store
/// iteration order.
pub struct MongoRepo {
    docs: Vec<Blog>,
    next_id: u64,
}

impl MongoRepo {
    /// The stored posts, in iteration order.
    pub closed spec fn posts(&self) -> Seq<BlogView> {
        Seq::new(self.docs@.len(), |i: int| self.docs@[i]@)
    }

    /// How many identifiers the store has assigned so far.
    pub closed spec fn id_seed(&self) -> nat {
        self.next_id as nat
    }

    /// Well-formedness: the collection invariant holds, and every assigned
    /// identifier was minted from an earlier seed value.
    pub closed spec fn wf(&self) -> bool {
        &&& inv_posts(self.posts())
        &&& forall|i: int|
            0 <= i < self.posts().len() ==> ((#[trigger] self.posts()[i].id) matches Some(pid)
                && pid.lo == 0 && pid.hi < self.next_id)
    }

    /// A fresh repository holding no documents.
    pub fn init() -> (r: Self)
        ensures
            r.wf(),
            r.posts() == Seq::<BlogView>::empty(),
            r.id_seed() == 0,
    {
        let r = MongoRepo { docs: Vec::new(), next_id: 0 };
        proof {
            assert(r.posts() =~= Seq::<BlogView>::empty());
        }
        r
    }

    /// Finds the position of the document carrying `id`.
    fn find_index(&self, id: PostId) -> (r: Option<usize>)
        ensures
            match r {
                Some(j) => j < self.docs@.len() && find_in(self.posts(), id) == Some(j as int),
                None => find_in(self.posts(), id) is None,
            },
    {
        let n = self.docs.len();
        let mut i: usize = 0;
        while i < n
            invariant
                i <= n,
                n == self.docs@.len(),
                forall|k: int| 0 <= k < i ==> (#[trigger] self.posts()[k].id) != Some(id),
            decreases n - i,
        {
            let matched = match &self.docs[i].id {
                Some(pid) => *pid == id,
                None => false,
            };
            if matched {
                proof {
                    lemma_find_in_first(self.posts(), id, i as int);
                }
                return Some(i);
            }
            i = i + 1;
        }
        proof {
            lemma_find_in_props(self.posts(), id);
        }
        None
    }

    /// Inserts a new document. The client-supplied `id` is ignored: the
    /// store assigns a fresh identifier, carried in the acknowledgment.
    /// The write fails only when the identifier seed is spent.
    pub fn create_blog(&mut self, new_blog: Blog) -> (r: Result<InsertOneResult, RepoError>)
        requires
            old(self).wf(),
        ensures
            final(self).wf(),
            match r {
                Ok(ack) => {
                    &&& old(self).id_seed() < u64::MAX
                    &&& !has_id(old(self).posts(), ack.inserted_id)
                    &&& final(self).posts() == spec_create(
                        old(self).posts(),
                        new_blog@,
                        ack.inserted_id,
                    )
                    &&& final(self).id_seed() == old(self).id_seed() + 1
                },
                Err(e) => {
                    &&& e == RepoError::StoreError
                    &&& old(self).id_seed() == u64::MAX
                    &&& final(self).posts() == old(self).posts()
                    &&& final(self).id_seed() == old(self).id_seed()
                },
            },
    {
        if self.next_id == u64::MAX {
            return Err(RepoError::StoreError);
        }
        let pid = PostId { hi: self.next_id, lo: 0 };
        proof {
            lemma_find_in_props(old(self).posts(), pid);
            if has_id(old(self).posts(), pid) {
                let i = find_in(old(self).posts(), pid).unwrap();
                assert(old(self).posts()[i].id == Some(pid));
            }
        }
        let stored = Blog {
            id: Some(pid),
            title: new_blog.title,
            body: new_blog.body,
            author: new_blog.author,
            likes: new_blog.likes,
            dislikes: new_blog.dislikes,
        };
        let ghost prev = self.posts();
        self.docs.push(stored);
        self.next_id = self.next_id + 1;
        proof {
            assert(self.posts() =~= spec_create(prev, new_blog@, pid));
        }
        Ok(InsertOneResult { inserted_id: pid })
    }

    /// Reads the document named by `id`. Answers the document exactly when
    /// `id` is well formed and matches one; a malformed `id` is
    /// `InvalidIdentifier` and zero matches is `NotFound`, each if and only
    /// if.
    pub fn get_blog(&self, id: &String) -> (r: Result<Blog, RepoError>)
        requires
            self.wf(),
        ensures
            match r {
                Ok(b) => valid_oid_str(id@) && spec_lookup(self.posts(), spec_parse_oid(id@))
                    == Some(b@),
                Err(RepoError::InvalidIdentifier) => !valid_oid_str(id@),
                Err(RepoError::NotFound) => valid_oid_str(id@) && spec_lookup(
                    self.posts(),
                    spec_parse_oid(id@),
                ) is None,
                Err(_) => false,
            },
    {
        let pid = match parse_object_id(id.as_str()) {
            None => {
                return Err(RepoError::InvalidIdentifier);
            },
            Some(pid) => pid,
        };
        match self.find_index(pid) {
            None => Err(RepoError::NotFound),
            Some(j) => Ok(self.docs[j].clone()),
        }
    }

    /// Replaces every mutable field of the document named by `id` with the
    /// fields of `new_blog`, keeping the stored identifier. Zero matches is
    /// an outcome (`matched_count` 0), not an error; only a malformed `id`
    /// fails.
    pub fn update_blog(&mut self, id: &String, new_blog: Blog) -> (r: Result<
        UpdateResult,
        RepoError,
    >)
        requires
            old(self).wf(),
        ensures
            final(self).wf(),
            final(self).id_seed() == old(self).id_seed(),
            match r {
                Ok(u) => {
                    &&& valid_oid_str(id@)
                    &&& final(self).posts() == spec_update(
                        old(self).posts(),
                        spec_parse_oid(id@),
                        new_blog@,
                    )
                    &&& if has_id(old(self).posts(), spec_parse_oid(id@)) {
                        u == (UpdateResult { matched_count: 1u64, modified_count: 1u64 })
                    } else {
                        u == (UpdateResult { matched_count: 0u64, modified_count: 0u64 })
                    }
                },
                Err(e) => {
                    &&& e == RepoError::InvalidIdentifier
                    &&& !valid_oid_str(id@)
                    &&& final(self).posts() == old(self).posts()
                },
            },
    {
        let pid = match parse_object_id(id.as_str()) {
            None => {
                return Err(RepoError::InvalidIdentifier);
            },
            Some(pid) => pid,
        };
        match self.find_index(pid) {
            None => Ok(UpdateResult { matched_count: 0, modified_count: 0 }),
            Some(j) => {
                proof {
                    lemma_find_in_props(self.posts(), pid);
                }
                let kept = match &self.docs[j].id {
                    Some(p) => *p,
                    None => pid,
                };
                let ghost prev = self.posts();
                self.docs[j] = Blog {
                    id: Some(kept),
                    title: new_blog.title,
                    body: new_blog.body,
                    author: new_blog.author,
                    likes: new_blog.likes,
                    dislikes: new_blog.dislikes,
                };
                proof {
                    assert(self.posts() =~= spec_update(prev, pid, new_blog@));
                }
                Ok(UpdateResult { matched_count: 1, modified_count: 1 })
            },
        }
    }

    /// Removes the document named by `id`. Zero matches is an outcome
    /// (`deleted_count` 0), not an error; only a malformed `id` fails.
    pub fn delete_blog(&mut self, id: &String) -> (r: Result<DeleteResult, RepoError>)
        requires
            old(self).wf(),
        ensures
            final(self).wf(),
            final(self).id_seed() == old(self).id_seed(),
            match r {
                Ok(d) => {
                    &&& valid_oid_str(id@)
                    &&& final(self).posts() == spec_delete(old(self).posts(), spec_parse_oid(id@))
                    &&& d.deleted_count == if has_id(old(self).posts(), spec_parse_oid(id@)) {
                        1u64
                    } else {
                        0u64
                    }
                },
                Err(e) => {
                    &&& e == RepoError::InvalidIdentifier
                    &&& !valid_oid_str(id@)
                    &&& final(self).posts() == old(self).posts()
                },
            },
    {
        let pid = match parse_object_id(id.as_str()) {
            None => {
                return Err(RepoError::InvalidIdentifier);
            },
            Some(pid) => pid,
        };
        match self.find_index(pid) {
            None => Ok(DeleteResult { deleted_count: 0 }),
            Some(j) => {
                let ghost prev = self.posts();
                self.docs.remove(j);
                proof {
                    assert(self.posts() =~= spec_delete(prev, pid));
                }
                Ok(DeleteResult { deleted_count: 1 })
            },
        }
    }

    /// Answers every stored document, in iteration order. Reading the
    /// explicit state cannot fail.
    pub fn get_all_blogs(&self) -> (r: Result<Vec<Blog>, RepoError>)
        requires
            self.wf(),
        ensures
            match r {
                Ok(v) => Seq::new(v@.len(), |i: int| v@[i]@) == self.posts(),
                Err(_) => false,
            },
    {
        let n = self.docs.len();
        let mut out: Vec<Blog> = Vec::new();
        let mut i: usize = 0;
        while i < n
            invariant
                i <= n,
                n == self.docs@.len(),
                out@.len() == i,
                forall|k: int| 0 <= k < i ==> (#[trigger] out@[k]@) == self.posts()[k],
            decreases n - i,
        {
            out.push(self.docs[i].clone());
            i = i + 1;
        }
        proof {
            assert(Seq::new(out@.len(), |i: int| out@[i]@) =~= self.posts());
        }
        Ok(out)
    }
}

} // verus!
