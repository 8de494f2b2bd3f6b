//! The laws of the ledger, each proved for every well-formed state: what the
//! identifiers look like, and that the statistics are exactly the totals the
//! registry itself determines.

use vstd::prelude::*;

use crate::contract::DecentralizedBlogContract;
use crate::counts::active_count;
use crate::counts::lemma_active_count_all;
use crate::counts::lemma_active_count_bounds;
use crate::counts::lemma_author_count_pos;
use crate::types::AuthorPostCount;
use crate::types::BlogPostView;

verus! {

/// The set of distinct authors over a sequence of records.
pub open spec fn distinct_authors(s: Seq<BlogPostView>) -> Set<Seq<char>> {
    s.map_values(|p: BlogPostView| p.author).to_set()
}

/// Law: identifiers are dense and ordered. In any well-formed ledger the
/// record at index `i` carries identifier `i + 1`, so successful creations
/// return exactly 1, 2, 3, … in call order — strictly increasing, no gaps,
/// no repeats.
pub proof fn lemma_post_ids_sequential(contract: &DecentralizedBlogContract)
    requires
        contract.wf(),
    ensures
        forall|i: int|
            0 <= i < contract.posts_view().len() ==> (#[trigger] contract.posts_view()[i]).post_id
                == i + 1,
{
}

/// Law: the statistics are the totals the registry determines. In any
/// well-formed ledger, `total_posts` counts every record, `active_posts`
/// counts the records still active, and `total_authors` counts the distinct
/// identities that ever created a post.
pub proof fn lemma_stats_derived(contract: &DecentralizedBlogContract)
    requires
        contract.wf(),
    ensures
        contract.stats.total_posts == contract.posts_view().len(),
        contract.stats.active_posts == active_count(contract.posts_view()),
        contract.stats.total_authors == distinct_authors(contract.posts_view()).len(),
{
    let pv = contract.posts_view();
    let keys = contract.authors@.map_values(|a: AuthorPostCount| a.author@);
    let posts_authors = pv.map_values(|p: BlogPostView| p.author);
    assert(keys.no_duplicates()) by {
        assert forall|x: int, y: int|
            0 <= x < keys.len() && 0 <= y < keys.len() && x != y implies keys[x] != keys[y] by {
            if x < y {
                assert(contract.authors@[x].author@ != contract.authors@[y].author@);
            } else {
                assert(contract.authors@[y].author@ != contract.authors@[x].author@);
            }
        }
    }
    keys.unique_seq_to_set();
    assert(keys.to_set() =~= distinct_authors(pv)) by {
        assert forall|a: Seq<char>| keys.to_set().contains(a) implies distinct_authors(pv).contains(
            a,
        ) by {
            let j = choose|j: int| 0 <= j < keys.len() && keys[j] == a;
            assert(contract.authors@[j].count >= 1);
            lemma_author_count_pos(pv, a);
            let i = choose|i: int| 0 <= i < pv.len() && (#[trigger] pv[i]).author == a;
            assert(posts_authors[i] == a);
            assert(posts_authors.contains(a));
        }
        assert forall|a: Seq<char>| distinct_authors(pv).contains(a) implies keys.to_set().contains(
            a,
        ) by {
            let i = choose|i: int| 0 <= i < posts_authors.len() && posts_authors[i] == a;
            assert(pv[i].author == a);
            assert(contract.indexed(pv[i].author));
            let j = choose|j: int|
                0 <= j < contract.authors@.len() && contract.authors@[j].author@ == a;
            assert(keys[j] == a);
            assert(keys.contains(a));
        }
    }
}

/// Law: never more active posts than posts altogether.
pub proof fn lemma_active_le_total(contract: &DecentralizedBlogContract)
    requires
        contract.wf(),
    ensures
        contract.stats.active_posts <= contract.stats.total_posts,
{
    lemma_active_count_bounds(contract.posts_view());
}

/// Law: while nothing has been deactivated — every record still active —
/// the active total equals the post total.
pub proof fn lemma_all_active_stats(contract: &DecentralizedBlogContract)
    requires
        contract.wf(),
        forall|i: int|
            0 <= i < contract.posts_view().len() ==> (#[trigger] contract.posts_view()[i]).is_active,
    ensures
        contract.stats.active_posts == contract.stats.total_posts,
{
    lemma_active_count_all(contract.posts_view());
}

} // verus!
