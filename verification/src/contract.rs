//! The ledger itself: the post registry in creation order, the author index,
//! the aggregate statistics, and the four operations over them.
//!
//! A host that runs this ledger owns ordering, authentication and
//! persistence: it serializes the mutating operations, verifies that a caller
//! controls the identity it presents, and keeps the state between
//! invocations. The operations here take the caller's identity as a value the
//! host has already verified, and the creation timestamp as a value the
//! host's clock supplied.

use vstd::prelude::*;

use crate::counts::active_count;
use crate::counts::author_count;
use crate::counts::lemma_active_count_bounds;
use crate::counts::lemma_active_count_pos;
use crate::counts::lemma_active_count_push;
use crate::counts::lemma_active_count_update;
use crate::counts::lemma_author_count_bounds;
use crate::counts::lemma_author_count_pos;
use crate::counts::lemma_author_count_push;
use crate::counts::lemma_author_count_update;
use crate::types::AuthorPostCount;
use crate::types::BlogError;
use crate::types::BlogPost;
use crate::types::BlogPostView;
use crate::types::BlogStats;
use crate::types::Identity;
use crate::types::sentinel_post;
use crate::types::sentinel_record;

verus! {

/// The content-registry ledger. Post `i + 1` sits at index `i` of the
/// registry; the author index holds one entry per distinct author; the
/// statistics are the totals the registry itself determines.
pub struct DecentralizedBlogContract {
    pub posts: Vec<BlogPost>,
    pub authors: Vec<AuthorPostCount>,
    pub stats: BlogStats,
}

impl DecentralizedBlogContract {
    /// The registry as a sequence of record views, in creation order.
    pub open spec fn posts_view(&self) -> Seq<BlogPostView> {
        self.posts@.map_values(|p: BlogPost| p@)
    }

    /// Each record sits at the index one below its identifier.
    pub open spec fn ids_sequential(&self) -> bool {
        forall|i: int|
            0 <= i < self.posts_view().len() ==> (#[trigger] self.posts_view()[i]).post_id == i
                + 1
    }

    /// Some entry of the author index carries `author`.
    pub open spec fn indexed(&self, author: Seq<char>) -> bool {
        exists|j: int| 0 <= j < self.authors@.len() && self.authors@[j].author@ == author
    }

    /// No author appears twice in the author index.
    pub open spec fn authors_unique(&self) -> bool {
        forall|j: int, k: int|
            0 <= j < k < self.authors@.len() ==> self.authors@[j].author@
                != self.authors@[k].author@
    }

    /// Every index entry counts exactly that author's records, and counts at
    /// least one.
    pub open spec fn counts_accurate(&self) -> bool {
        forall|j: int|
            0 <= j < self.authors@.len() ==> (#[trigger] self.authors@[j]).count == author_count(
                self.posts_view(),
                self.authors@[j].author@,
            ) && self.authors@[j].count >= 1
    }

    /// Every author of a record appears in the author index.
    pub open spec fn authors_complete(&self) -> bool {
        forall|i: int|
            0 <= i < self.posts_view().len() ==> self.indexed(
                (#[trigger] self.posts_view()[i]).author,
            )
    }

    /// Well-formedness: the statistics equal the totals the registry
    /// determines, identifiers are dense and ordered, and the author index
    /// is a sound and complete tally of the registry.
    pub open spec fn wf(&self) -> bool {
        &&& self.stats.total_posts == self.posts@.len()
        &&& self.stats.active_posts == active_count(self.posts_view())
        &&& self.stats.total_authors == self.authors@.len()
        &&& self.authors@.len() <= self.posts@.len()
        &&& self.ids_sequential()
        &&& self.authors_unique()
        &&& self.counts_accurate()
        &&& self.authors_complete()
    }

    /// Some record in the registry was written by `author`.
    pub open spec fn has_author(&self, author: Seq<char>) -> bool {
        exists|i: int|
            0 <= i < self.posts_view().len() && (#[trigger] self.posts_view()[i]).author == author
    }

    /// `post_id` names a stored record.
    pub open spec fn contains_post(&self, post_id: u64) -> bool {
        1 <= post_id <= self.posts@.len()
    }

    /// What a lookup of `post_id` yields: the stored record, or the sentinel
    /// when the identifier is unused.
    pub open spec fn lookup(&self, post_id: u64) -> BlogPostView {
        if self.contains_post(post_id) {
            self.posts_view()[post_id - 1]
        } else {
            sentinel_post()
        }
    }

    /// An empty ledger: no posts, no authors, all-zero statistics.
    pub fn new() -> (contract: Self)
        ensures
            contract.wf(),
            contract.posts_view() == Seq::<BlogPostView>::empty(),
            contract.stats == (BlogStats { total_posts: 0, active_posts: 0, total_authors: 0 }),
    {
        let contract = DecentralizedBlogContract {
            posts: Vec::new(),
            authors: Vec::new(),
            stats: BlogStats { total_posts: 0, active_posts: 0, total_authors: 0 },
        };
        proof {
            assert(contract.posts_view() =~= Seq::<BlogPostView>::empty());
        }
        contract
    }

    /// Position of `author` in the author index, if any entry carries it.
    fn author_slot(&self, author: &Identity) -> (slot: Option<usize>)
        ensures
            match slot {
                Some(j) => j < self.authors@.len() && self.authors@[j as int].author@ == author@,
                None => !self.indexed(author@),
            },
    {
        let mut j: usize = 0;
        while j < self.authors.len()
            invariant
                j <= self.authors@.len(),
                forall|k: int| 0 <= k < j ==> self.authors@[k].author@ != author@,
            decreases self.authors@.len() - j,
        {
            if self.authors[j].author == *author {
                return Some(j);
            }
            j += 1;
        }
        None
    }

    /// Register a new post and return its identifier: one more than the
    /// count of posts ever created, so identifiers run 1, 2, 3, … in creation
    /// order. The record is stored active, under the caller's identity and
    /// the host-supplied timestamp; the caller's post count and every
    /// affected total are updated in the same step.
    pub fn create_post(
        &mut self,
        author: Identity,
        content_pointer: String,
        title: String,
        created_at: u64,
    ) -> (post_id: u64)
        requires
            old(self).wf(),
            old(self).stats.total_posts < u64::MAX,
        ensures
            final(self).wf(),
            post_id == old(self).stats.total_posts + 1,
            final(self).posts_view() == old(self).posts_view().push(
                (BlogPostView {
                    post_id,
                    author: author@,
                    content_pointer: content_pointer@,
                    title: title@,
                    created_at,
                    is_active: true,
                }),
            ),
            final(self).stats.total_posts == old(self).stats.total_posts + 1,
            final(self).stats.active_posts == old(self).stats.active_posts + 1,
            final(self).stats.total_authors == old(self).stats.total_authors + (if old(
                self,
            ).has_author(author@) {
                0int
            } else {
                1int
            }),
    {
        let ghost prior = *self;
        let post_id = self.stats.total_posts + 1;
        let post = BlogPost {
            post_id,
            author: author.clone(),
            content_pointer,
            title,
            created_at,
            is_active: true,
        };
        let ghost record = post@;
        let slot = self.author_slot(&author);
        match slot {
            Some(j) => {
                proof {
                    lemma_author_count_bounds(prior.posts_view(), prior.authors@[j as int].author@);
                }
                let c = self.authors[j].count;
                self.authors[j].count = c + 1;
            },
            None => {
                self.authors.push(AuthorPostCount { author, count: 1 });
                self.stats.total_authors = self.stats.total_authors + 1;
            },
        }
        proof {
            lemma_active_count_bounds(prior.posts_view());
        }
        self.posts.push(post);
        self.stats.total_posts = self.stats.total_posts + 1;
        self.stats.active_posts = self.stats.active_posts + 1;
        proof {
            let pv0 = prior.posts_view();
            let pv1 = self.posts_view();
            assert(pv1 =~= pv0.push(record));
            lemma_active_count_push(pv0, record);
            lemma_author_count_pos(pv0, author@);
            lemma_author_count_bounds(pv0, author@);
            assert forall|i: int| 0 <= i < pv1.len() implies (#[trigger] pv1[i]).post_id == i
                + 1 by {
                if i < pv0.len() {
                    assert(pv1[i] == pv0[i]);
                } else {
                    assert(pv1[i] == record);
                }
            }
            match slot {
                Some(j) => {
                    assert(prior.authors@[j as int].author@ == author@);
                    assert(self.authors@.len() == prior.authors@.len());
                    assert(forall|k: int|
                        0 <= k < self.authors@.len() ==> (#[trigger] self.authors@[k]).author
                            == prior.authors@[k].author);
                    assert(prior.has_author(author@));
                },
                None => {
                    assert(!prior.indexed(author@));
                    assert(self.authors@.len() == prior.authors@.len() + 1);
                    assert(forall|k: int|
                        0 <= k < prior.authors@.len() ==> (#[trigger] self.authors@[k]).author
                            == prior.authors@[k].author);
                    assert(self.authors@[prior.authors@.len() as int].author@ == author@);
                    if prior.has_author(author@) {
                        let i = choose|i: int|
                            0 <= i < pv0.len() && (#[trigger] pv0[i]).author == author@;
                        assert(prior.indexed(pv0[i].author));
                        assert(false);
                    }
                    assert(author_count(pv0, author@) == 0);
                },
            }
            assert forall|k: int| 0 <= k < self.authors@.len() implies (#[trigger] self.authors@[k]).count
                == author_count(pv1, self.authors@[k].author@) && self.authors@[k].count >= 1 by {
                lemma_author_count_push(pv0, self.authors@[k].author@, record);
                match slot {
                    Some(j) => {
                        if k == j as int {
                            assert(self.authors@[k].count == prior.authors@[k].count + 1);
                            assert(record.author == self.authors@[k].author@);
                        } else {
                            assert(prior.authors@[k].author@ != prior.authors@[j as int].author@);
                            assert(record.author != self.authors@[k].author@);
                        }
                    },
                    None => {
                        if k < prior.authors@.len() {
                            assert(prior.authors@[k].author@ != author@);
                            assert(record.author != self.authors@[k].author@);
                        } else {
                            assert(self.authors@[k].count == 1);
                            assert(record.author == self.authors@[k].author@);
                        }
                    },
                }
            }
            assert forall|i: int| 0 <= i < pv1.len() implies self.indexed(
                (#[trigger] pv1[i]).author,
            ) by {
                if i < pv0.len() {
                    assert(pv1[i] == pv0[i]);
                    assert(prior.indexed(pv0[i].author));
                    let j0 = choose|j0: int|
                        0 <= j0 < prior.authors@.len() && prior.authors@[j0].author@
                            == pv0[i].author;
                    assert(self.authors@[j0].author@ == pv1[i].author);
                } else {
                    assert(pv1[i] == record);
                    match slot {
                        Some(j) => {
                            assert(self.authors@[j as int].author@ == author@);
                        },
                        None => {
                            assert(self.authors@[prior.authors@.len() as int].author@ == author@);
                        },
                    }
                }
            }
        }
        post_id
    }

    /// Soft-delete a post on behalf of its author. Succeeds exactly when the
    /// caller is the recorded author and the post is still active; then the
    /// record's `is_active` flag flips to `false` — a one-way, terminal
    /// transition — and the active total drops by one, everything else
    /// untouched. Any refusal leaves the ledger exactly as it was. A lookup
    /// of an unused identifier falls through to the sentinel record, whose
    /// placeholder author no real caller carries.
    pub fn deactivate_post(&mut self, post_id: u64, author: Identity) -> (outcome: Result<
        (),
        BlogError,
    >)
        requires
            old(self).wf(),
        ensures
            final(self).wf(),
            match outcome {
                Ok(()) => {
                    &&& old(self).lookup(post_id).author == author@
                    &&& old(self).lookup(post_id).is_active
                    &&& old(self).contains_post(post_id)
                    &&& final(self).posts_view() == old(self).posts_view().update(
                        post_id - 1,
                        (BlogPostView { is_active: false, ..old(self).lookup(post_id) }),
                    )
                    &&& final(self).stats.active_posts == old(self).stats.active_posts - 1
                    &&& final(self).stats.total_posts == old(self).stats.total_posts
                    &&& final(self).stats.total_authors == old(self).stats.total_authors
                    &&& final(self).authors@ == old(self).authors@
                },
                Err(BlogError::UnauthorizedAction) => {
                    &&& old(self).lookup(post_id).author != author@
                    &&& *final(self) == *old(self)
                },
                Err(BlogError::AlreadyInactive) => {
                    &&& old(self).lookup(post_id).author == author@
                    &&& !old(self).lookup(post_id).is_active
                    &&& *final(self) == *old(self)
                },
            },
    {
        let ghost prior = *self;
        let post = self.get_post(post_id);
        if !(post.author == author) {
            return Err(BlogError::UnauthorizedAction);
        }
        if !post.is_active {
            return Err(BlogError::AlreadyInactive);
        }
        proof {
            if !prior.contains_post(post_id) {
                assert(prior.lookup(post_id) == sentinel_post());
                assert(!post.is_active);
            }
            assert(prior.contains_post(post_id));
        }
        let n = self.posts.len();
        assert(post_id <= n as u64);
        let i = (post_id - 1) as usize;
        self.posts[i].is_active = false;
        proof {
            lemma_active_count_pos(prior.posts_view(), i as int);
        }
        self.stats.active_posts = self.stats.active_posts - 1;
        proof {
            let pv0 = prior.posts_view();
            let pv1 = self.posts_view();
            let rec = BlogPostView { is_active: false, ..prior.lookup(post_id) };
            assert(pv1 =~= pv0.update(i as int, rec));
            lemma_active_count_update(pv0, i as int, rec);
            assert forall|k: int| 0 <= k < pv1.len() implies (#[trigger] pv1[k]).post_id == k
                + 1 by {
                if k != i as int {
                    assert(pv1[k] == pv0[k]);
                }
            }
            assert forall|k: int| 0 <= k < self.authors@.len() implies (#[trigger] self.authors@[k]).count
                == author_count(pv1, self.authors@[k].author@) && self.authors@[k].count >= 1 by {
                lemma_author_count_update(pv0, self.authors@[k].author@, i as int, rec);
            }
            assert forall|k: int| 0 <= k < pv1.len() implies self.indexed(
                (#[trigger] pv1[k]).author,
            ) by {
                if k == i as int {
                    assert(pv1[k].author == pv0[k].author);
                } else {
                    assert(pv1[k] == pv0[k]);
                }
                assert(prior.indexed(pv0[k].author));
                let j0 = choose|j0: int|
                    0 <= j0 < prior.authors@.len() && prior.authors@[j0].author@ == pv0[k].author;
                assert(self.authors@[j0].author@ == pv1[k].author);
            }
        }
        Ok(())
    }

    /// Return the record stored under `post_id`, or the sentinel record when
    /// the identifier is unused. A pure read: no authentication, no
    /// mutation.
    pub fn get_post(&self, post_id: u64) -> (post: BlogPost)
        ensures
            post@ == self.lookup(post_id),
    {
        if 1 <= post_id && post_id <= self.posts.len() as u64 {
            let i = (post_id - 1) as usize;
            self.posts[i].clone()
        } else {
            sentinel_record()
        }
    }

    /// Return the aggregate statistics. A pure read.
    pub fn get_stats(&self) -> (stats: BlogStats)
        ensures
            stats == self.stats,
    {
        self.stats
    }
}

} // verus!
