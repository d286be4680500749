//! In-memory models of the two durable ports.
//!
//! The storage port is an append-only table of posts whose one constraint
//! is id uniqueness; the blob store is write-once and keyed by generated
//! filename. Both are exercised directly by the verified pipeline; a
//! deployment may bind the same contracts to a relational table and a
//! directory of files instead.

use vstd::prelude::*;

use crate::post::Post;

verus! {

/// Why the storage port refused an insert.
#[derive(Clone, Copy, Debug, PartialEq, Eq, Structural)]
pub enum StoreError {
    /// A post with the same id is already present.
    DuplicateId,
}

/// Append-only table of posts, in insertion order.
pub struct FeedStore {
    posts: Vec<Post>,
}

impl View for FeedStore {
    type V = Seq<Post>;

    closed spec fn view(&self) -> Seq<Post> {
        self.posts@
    }
}

impl FeedStore {
    /// Well-formed: ids are unique and every post is well-formed.
    pub open spec fn wf(self) -> bool {
        &&& forall|i: int, j: int|
            0 <= i < j < self@.len() ==> self@[i].id != self@[j].id
        &&& forall|i: int| 0 <= i < self@.len() ==> (#[trigger] self@[i]).wf()
    }

    /// Whether some stored post carries this id.
    pub open spec fn contains_id(self, id: u128) -> bool {
        exists|i: int| 0 <= i < self@.len() && (#[trigger] self@[i]).id == id
    }

    /// An empty table.
    pub fn new() -> (s: Self)
        ensures
            s@ == Seq::<Post>::empty(),
            s.wf(),
    {
        FeedStore { posts: Vec::new() }
    }

    /// How many posts are stored.
    pub fn len(&self) -> (n: usize)
        ensures
            n == self@.len(),
    {
        self.posts.len()
    }

    /// The stored posts, in insertion order.
    pub fn posts(&self) -> (r: &Vec<Post>)
        ensures
            r@ == self@,
    {
        &self.posts
    }

    /// Single-row atomic insert: appends the post, or fails on the id
    /// uniqueness constraint and leaves the table unchanged.
    #[verifier::loop_isolation(false)]
    pub fn insert(&mut self, p: Post) -> (r: Result<(), StoreError>)
        requires
            old(self).wf(),
            p.wf(),
        ensures
            final(self).wf(),
            old(self).contains_id(p.id) ==> r == Err::<(), StoreError>(StoreError::DuplicateId)
                && final(self)@ == old(self)@,
            !old(self).contains_id(p.id) ==> r == Ok::<(), StoreError>(()) && final(self)@
                == old(self)@.push(p),
    {
        let n = self.posts.len();
        let mut i: usize = 0;
        while i < n
            invariant
                n == self@.len(),
                0 <= i <= n,
                forall|j: int| 0 <= j < i ==> (#[trigger] self@[j]).id != p.id,
            decreases n - i,
        {
            if self.posts[i].id == p.id {
                return Err(StoreError::DuplicateId);
            }
            i = i + 1;
        }
        self.posts.push(p);
        Ok(())
    }
}

/// Write-once blob store, seen abstractly as the sequence of
/// (filename, bytes) writes in order. No existence check is made on a
/// write: a repeated filename would simply store another blob under the
/// same name, and the id-derived naming scheme is what rules that out.
pub struct BlobStore {
    blobs: Vec<Blob>,
}

/// One stored blob.
pub struct Blob {
    pub name: String,
    pub data: Vec<u8>,
}

impl View for BlobStore {
    type V = Seq<(Seq<char>, Seq<u8>)>;

    closed spec fn view(&self) -> Seq<(Seq<char>, Seq<u8>)> {
        self.blobs@.map_values(|b: Blob| (b.name@, b.data@))
    }
}

impl BlobStore {
    /// Whether a blob was ever written under this filename.
    pub open spec fn has_name(self, name: Seq<char>) -> bool {
        exists|i: int| 0 <= i < self@.len() && (#[trigger] self@[i]).0 == name
    }

    /// An empty blob store.
    pub fn new() -> (s: Self)
        ensures
            s@ == Seq::<(Seq<char>, Seq<u8>)>::empty(),
    {
        let s = BlobStore { blobs: Vec::new() };
        proof {
            assert(s@ =~= Seq::<(Seq<char>, Seq<u8>)>::empty());
        }
        s
    }

    /// How many blobs were written.
    pub fn len(&self) -> (n: usize)
        ensures
            n == self@.len(),
    {
        self.blobs.len()
    }

    /// Writes one blob. Never fails in this model; the write is recorded
    /// whether or not the name was used before.
    pub fn put(&mut self, name: String, data: Vec<u8>)
        ensures
            final(self)@ == old(self)@.push((name@, data@)),
    {
        let ghost n = name@;
        let ghost d = data@;
        self.blobs.push(Blob { name, data });
        proof {
            assert(self@ =~= old(self)@.push((n, d)));
        }
    }

    /// The stored blob at a position, as (filename, bytes).
    pub fn get(&self, i: usize) -> (r: (&String, &Vec<u8>))
        requires
            i < self@.len(),
        ensures
            r.0@ == self@[i as int].0,
            r.1@ == self@[i as int].1,
    {
        let b = &self.blobs[i];
        (&b.name, &b.data)
    }
}

} // verus!
