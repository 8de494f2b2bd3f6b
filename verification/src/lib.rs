//! A content-registry ledger: identified authors register posts that point to
//! off-chain content, may soft-delete their own posts, and anyone may query a
//! post or the aggregate platform statistics.

pub mod contract;
pub mod counts;
pub mod laws;
pub mod types;

pub use contract::DecentralizedBlogContract;

pub use types::AuthorBook;
pub use types::AuthorPostCount;
pub use types::BlogError;
pub use types::BlogPost;
pub use types::BlogStats;
pub use types::Identity;
pub use types::PostBook;
