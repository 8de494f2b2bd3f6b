//! The data carried by the ledger: identities, post records, statistics,
//! the persisted key families, and the error taxonomy.

use vstd::prelude::*;

verus! {

/// A caller's principal, carried as the printable key the host hands over
/// once it has verified the caller's control of it.
#[derive(Debug)]
pub struct Identity {
    pub key: String,
}

impl View for Identity {
    type V = Seq<char>;

    open spec fn view(&self) -> Seq<char> {
        self.key@
    }
}

impl Clone for Identity {
    fn clone(&self) -> (other: Self)
        ensures
            other@ == self@,
    {
        Identity { key: self.key.clone() }
    }
}

impl PartialEq for Identity {
    fn eq(&self, other: &Self) -> bool {
        self.key == other.key
    }
}

impl Eq for Identity {}

impl vstd::std_specs::cmp::PartialEqSpecImpl for Identity {
    open spec fn obeys_eq_spec() -> bool {
        true
    }

    open spec fn eq_spec(&self, other: &Self) -> bool {
        self@ == other@
    }
}

/// Platform-wide totals maintained alongside the registry.
#[derive(Clone, Copy, PartialEq, Eq, Structural, Debug)]
pub struct BlogStats {
    pub total_posts: u64,
    pub active_posts: u64,
    pub total_authors: u64,
}

/// A registered post. Immutable once stored, except `is_active`, which may
/// flip from `true` to `false` exactly once.
#[derive(Debug)]
pub struct BlogPost {
    pub post_id: u64,
    pub author: Identity,
    pub content_pointer: String,
    pub title: String,
    pub created_at: u64,
    pub is_active: bool,
}

/// The mathematical shape of a post record: every text field as the sequence
/// of characters it holds.
pub ghost struct BlogPostView {
    pub post_id: u64,
    pub author: Seq<char>,
    pub content_pointer: Seq<char>,
    pub title: Seq<char>,
    pub created_at: u64,
    pub is_active: bool,
}

impl View for BlogPost {
    type V = BlogPostView;

    open spec fn view(&self) -> BlogPostView {
        BlogPostView {
            post_id: self.post_id,
            author: self.author@,
            content_pointer: self.content_pointer@,
            title: self.title@,
            created_at: self.created_at,
            is_active: self.is_active,
        }
    }
}

impl Clone for BlogPost {
    fn clone(&self) -> (other: Self)
        ensures
            other@ == self@,
    {
        BlogPost {
            post_id: self.post_id,
            author: self.author.clone(),
            content_pointer: self.content_pointer.clone(),
            title: self.title.clone(),
            created_at: self.created_at,
            is_active: self.is_active,
        }
    }
}

/// One entry of the author index: how many posts this identity has created.
#[derive(Debug)]
pub struct AuthorPostCount {
    pub author: Identity,
    pub count: u64,
}

/// Key family under which a host keyed by typed keys persists post records,
/// one key per post identifier.
#[derive(Debug)]
pub enum PostBook {
    Post(u64),
}

/// Key family under which such a host persists per-author post counts.
#[derive(Debug)]
pub enum AuthorBook {
    Author(Identity),
}

/// Why a mutating operation refused to run. Any refusal leaves the ledger
/// exactly as it was.
#[derive(Clone, Copy, PartialEq, Eq, Structural, Debug)]
pub enum BlogError {
    /// The caller is not the recorded author of the post.
    UnauthorizedAction,
    /// The post was already deactivated.
    AlreadyInactive,
}

/// The placeholder principal recorded on the sentinel record; no real caller
/// carries it.
pub open spec fn sentinel_author() -> Seq<char> {
    "GAAAAAAAAAAAAAAAAAAAAAAAAAAAAAAAAAAAAAAAAAAAAAAAAAAAAAAAAA"@
}

/// The fixed text both free-text fields of the sentinel record hold.
pub open spec fn sentinel_text() -> Seq<char> {
    "Not_Found"@
}

/// The record a query yields for an identifier no post was ever stored
/// under: identifier zero, the placeholder author, fixed text fields, and
/// the inactive flag.
pub open spec fn sentinel_post() -> BlogPostView {
    BlogPostView {
        post_id: 0,
        author: sentinel_author(),
        content_pointer: sentinel_text(),
        title: sentinel_text(),
        created_at: 0,
        is_active: false,
    }
}

/// Build the sentinel record.
pub fn sentinel_record() -> (post: BlogPost)
    ensures
        post@ == sentinel_post(),
{
    BlogPost {
        post_id: 0,
        author: Identity {
            key: "GAAAAAAAAAAAAAAAAAAAAAAAAAAAAAAAAAAAAAAAAAAAAAAAAAAAAAAAAA".to_owned(),
        },
        content_pointer: "Not_Found".to_owned(),
        title: "Not_Found".to_owned(),
        created_at: 0,
        is_active: false,
    }
}

} // verus!
