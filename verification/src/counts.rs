//! Counting over a sequence of post records: how many are active, and how
//! many a given author wrote. The statistics invariant is stated over these.

use vstd::prelude::*;

use crate::types::BlogPostView;

verus! {

/// Number of records in `s` whose `is_active` flag is set.
pub open spec fn active_count(s: Seq<BlogPostView>) -> int
    decreases s.len(),
{
    if s.len() == 0 {
        0
    } else {
        active_count(s.drop_last()) + if s.last().is_active {
            1int
        } else {
            0int
        }
    }
}

/// Number of records in `s` written by `author`.
pub open spec fn author_count(s: Seq<BlogPostView>, author: Seq<char>) -> int
    decreases s.len(),
{
    if s.len() == 0 {
        0
    } else {
        author_count(s.drop_last(), author) + if s.last().author == author {
            1int
        } else {
            0int
        }
    }
}

pub proof fn lemma_active_count_bounds(s: Seq<BlogPostView>)
    ensures
        0 <= active_count(s) <= s.len(),
    decreases s.len(),
{
    if s.len() > 0 {
        lemma_active_count_bounds(s.drop_last());
    }
}

pub proof fn lemma_author_count_bounds(s: Seq<BlogPostView>, author: Seq<char>)
    ensures
        0 <= author_count(s, author) <= s.len(),
    decreases s.len(),
{
    if s.len() > 0 {
        lemma_author_count_bounds(s.drop_last(), author);
    }
}

pub proof fn lemma_active_count_push(s: Seq<BlogPostView>, p: BlogPostView)
    ensures
        active_count(s.push(p)) == active_count(s) + if p.is_active {
            1int
        } else {
            0int
        },
{
    assert(s.push(p).drop_last() =~= s);
}

pub proof fn lemma_author_count_push(s: Seq<BlogPostView>, author: Seq<char>, p: BlogPostView)
    ensures
        author_count(s.push(p), author) == author_count(s, author) + if p.author == author {
            1int
        } else {
            0int
        },
{
    assert(s.push(p).drop_last() =~= s);
}

pub proof fn lemma_active_count_update(s: Seq<BlogPostView>, i: int, p: BlogPostView)
    requires
        0 <= i < s.len(),
    ensures
        active_count(s.update(i, p)) == active_count(s) + (if p.is_active {
            1int
        } else {
            0int
        }) - (if s[i].is_active {
            1int
        } else {
            0int
        }),
    decreases s.len(),
{
    let t = s.update(i, p);
    if i == s.len() - 1 {
        assert(t.drop_last() =~= s.drop_last());
        assert(t.last() == p);
    } else {
        assert(t.drop_last() =~= s.drop_last().update(i, p));
        assert(t.last() == s.last());
        lemma_active_count_update(s.drop_last(), i, p);
        assert(s.drop_last()[i] == s[i]);
    }
}

pub proof fn lemma_author_count_update(
    s: Seq<BlogPostView>,
    author: Seq<char>,
    i: int,
    p: BlogPostView,
)
    requires
        0 <= i < s.len(),
        p.author == s[i].author,
    ensures
        author_count(s.update(i, p), author) == author_count(s, author),
    decreases s.len(),
{
    let t = s.update(i, p);
    if i == s.len() - 1 {
        assert(t.drop_last() =~= s.drop_last());
        assert(t.last() == p);
    } else {
        assert(t.drop_last() =~= s.drop_last().update(i, p));
        assert(t.last() == s.last());
        lemma_author_count_update(s.drop_last(), author, i, p);
        assert(s.drop_last()[i] == s[i]);
    }
}

/// An author's count is positive exactly when some record carries them.
pub proof fn lemma_author_count_pos(s: Seq<BlogPostView>, author: Seq<char>)
    ensures
        author_count(s, author) > 0 <==> exists|i: int|
            0 <= i < s.len() && s[i].author == author,
    decreases s.len(),
{
    if s.len() > 0 {
        lemma_author_count_pos(s.drop_last(), author);
        lemma_author_count_bounds(s.drop_last(), author);
        if s.last().author == author {
            assert(s[s.len() - 1].author == author);
        } else {
            if exists|i: int| 0 <= i < s.len() && s[i].author == author {
                let i = choose|i: int| 0 <= i < s.len() && s[i].author == author;
                assert(i < s.len() - 1);
                assert(s.drop_last()[i] == s[i]);
            }
            if author_count(s, author) > 0 {
                let i = choose|i: int|
                    0 <= i < s.drop_last().len() && s.drop_last()[i].author == author;
                assert(s[i].author == author);
            }
        }
    }
}

/// A record flagged active keeps the active count positive.
pub proof fn lemma_active_count_pos(s: Seq<BlogPostView>, i: int)
    requires
        0 <= i < s.len(),
        s[i].is_active,
    ensures
        active_count(s) > 0,
    decreases s.len(),
{
    if i == s.len() - 1 {
        lemma_active_count_bounds(s.drop_last());
    } else {
        assert(s.drop_last()[i] == s[i]);
        lemma_active_count_pos(s.drop_last(), i);
    }
}

/// When every record is active the active count is the whole length.
pub proof fn lemma_active_count_all(s: Seq<BlogPostView>)
    requires
        forall|i: int| 0 <= i < s.len() ==> (#[trigger] s[i]).is_active,
    ensures
        active_count(s) == s.len(),
    decreases s.len(),
{
    if s.len() > 0 {
        assert(forall|i: int|
            0 <= i < s.drop_last().len() ==> (#[trigger] s.drop_last()[i]).is_active);
        lemma_active_count_all(s.drop_last());
        assert(s[s.len() - 1].is_active);
    }
}

} // verus!
