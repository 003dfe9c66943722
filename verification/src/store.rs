//! The post store: the one persistent table of posts.
//!
//! The store assigns each post a fresh id, keeps it invisible until its
//! media is on disk, and flips it visible exactly once.  This module is the
//! model that the submission pipeline is verified against; the process that
//! talks to the real database mirrors these operations statement for
//! statement.

use vstd::prelude::*;

use crate::errors::SubmitError;

verus! {

/// One row of the posts table.
pub struct Post {
    /// Surrogate key, assigned by the store on creation, immutable after.
    pub id: u64,
    /// Author name; free text.
    pub author: String,
    /// Date string; `YYYY-MM-DD` shaped for every post the pipeline admits.
    pub date: String,
    /// Whether an image file was written for this post.
    pub has_image: bool,
    /// Whether an avatar file was written for this post.
    pub has_avatar: bool,
    /// Post body; free text.
    pub content: String,
    /// Whether the post may appear in the feed.
    pub visible: bool,
}

/// The posts table and the next id to assign.
pub struct PostStore {
    pub posts: Vec<Post>,
    pub next_id: u64,
}

impl PostStore {
    /// Well-formedness: ids are unique and below the next id to assign.
    pub open spec fn wf(&self) -> bool {
        &&& forall|i: int, j: int|
            0 <= i < j < self.posts@.len() ==> self.posts@[i].id != self.posts@[j].id
        &&& forall|i: int| 0 <= i < self.posts@.len() ==> #[trigger] self.posts@[i].id
            < self.next_id
    }

    /// An empty store.
    pub fn new() -> (s: PostStore)
        ensures
            s.wf(),
            s.posts@.len() == 0,
            s.next_id == 0,
    {
        PostStore { posts: Vec::new(), next_id: 0 }
    }

    /// Insert a new row with `visible = false` and no media flags, and
    /// return its fresh id.
    ///
    /// Fails only when the id space is exhausted; nothing changes then.
    pub fn create_invisible(&mut self, author: &str, date: &str, content: &str) -> (r: Result<
        u64,
        SubmitError,
    >)
        requires
            old(self).wf(),
        ensures
            final(self).wf(),
            r is Ok <==> old(self).next_id < u64::MAX,
            r is Err ==> r == Result::<u64, SubmitError>::Err(SubmitError::Store) && *final(self)
                == *old(self),
            r is Ok ==> {
                &&& r->Ok_0 == old(self).next_id
                &&& final(self).next_id == old(self).next_id + 1
                &&& final(self).posts@.len() == old(self).posts@.len() + 1
                &&& final(self).posts@.drop_last() == old(self).posts@
                &&& final(self).posts@.last().id == old(self).next_id
                &&& final(self).posts@.last().author@ == author@
                &&& final(self).posts@.last().date@ == date@
                &&& final(self).posts@.last().content@ == content@
                &&& final(self).posts@.last().has_image == false
                &&& final(self).posts@.last().has_avatar == false
                &&& final(self).posts@.last().visible == false
            },
    {
        if self.next_id == u64::MAX {
            return Err(SubmitError::Store);
        }
        let id = self.next_id;
        let post = Post {
            id,
            author: author.to_owned(),
            date: date.to_owned(),
            has_image: false,
            has_avatar: false,
            content: content.to_owned(),
            visible: false,
        };
        self.posts.push(post);
        self.next_id = id + 1;
        proof {
            assert(self.posts@.drop_last() =~= old(self).posts@);
        }
        Ok(id)
    }

    /// Whether some row carries `id`.
    pub open spec fn has_id(&self, id: u64) -> bool {
        exists|i: int| 0 <= i < self.posts@.len() && self.posts@[i].id == id
    }

    /// Law: in a well-formed store no id is carried by two rows, so a row
    /// found by id is the only one with it.
    pub proof fn lemma_id_unique(&self, i: int, j: int)
        requires
            self.wf(),
            0 <= i < self.posts@.len(),
            0 <= j < self.posts@.len(),
            self.posts@[i].id == self.posts@[j].id,
        ensures
            i == j,
    {
    }

    /// Set the media flags of the row with `id` and flip it visible.
    ///
    /// Fails exactly when no row carries `id`; nothing changes then.
    pub fn finalize(&mut self, id: u64, has_image: bool, has_avatar: bool) -> (r: Result<
        (),
        SubmitError,
    >)
        requires
            old(self).wf(),
        ensures
            final(self).wf(),
            final(self).next_id == old(self).next_id,
            r is Ok <==> old(self).has_id(id),
            r is Err ==> r == Result::<(), SubmitError>::Err(SubmitError::Store) && *final(self)
                == *old(self),
            r is Ok ==> exists|i: int|
                {
                    &&& 0 <= i < old(self).posts@.len()
                    &&& old(self).posts@[i].id == id
                    &&& final(self).posts@ == old(self).posts@.update(
                        i,
                        (Post { has_image, has_avatar, visible: true, ..old(self).posts@[i] }),
                    )
                },
    {
        let n = self.posts.len();
        let mut i: usize = 0;
        while i < n
            invariant
                old(self).wf(),
                n == self.posts@.len(),
                i <= n,
                *self == *old(self),
                forall|k: int| 0 <= k < i ==> self.posts@[k].id != id,
            decreases n - i,
        {
            if self.posts[i].id == id {
                self.posts[i].has_image = has_image;
                self.posts[i].has_avatar = has_avatar;
                self.posts[i].visible = true;
                proof {
                    assert(self.posts@ =~= old(self).posts@.update(
                        i as int,
                        (Post {
                            has_image,
                            has_avatar,
                            visible: true,
                            ..old(self).posts@[i as int]
                        }),
                    ));
                    assert(forall|k: int|
                        0 <= k < self.posts@.len() ==> self.posts@[k].id == old(
                            self,
                        ).posts@[k].id);
                    assert forall|p: int, q: int|
                        0 <= p < q < self.posts@.len() implies self.posts@[p].id
                        != self.posts@[q].id by {
                        assert(self.posts@[p].id == old(self).posts@[p].id);
                        assert(self.posts@[q].id == old(self).posts@[q].id);
                    }
                    assert forall|p: int|
                        0 <= p < self.posts@.len() implies #[trigger] self.posts@[p].id
                        < self.next_id by {
                        assert(self.posts@[p].id == old(self).posts@[p].id);
                    }
                }
                return Ok(());
            }
            i += 1;
        }
        Err(SubmitError::Store)
    }
}

} // verus!
