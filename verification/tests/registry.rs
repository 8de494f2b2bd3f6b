use decentralized_blog::BlogError;
use decentralized_blog::DecentralizedBlogContract;
use decentralized_blog::Identity;

fn identity(key: &str) -> Identity {
    Identity { key: String::from(key) }
}

#[test]
fn test_create_post() {
    let mut contract = DecentralizedBlogContract::new();

    let author = identity("GDWSAUTHORONE");
    let ipfs_hash = String::from("QmXxx123...");
    let title = String::from("My First Blog Post");

    let post_id = contract.create_post(author.clone(), ipfs_hash, title, 0);

    assert_eq!(post_id, 1);

    let post = contract.get_post(post_id);
    assert_eq!(post.author, author);
    assert_eq!(post.is_active, true);
}

#[test]
fn post_ids_run_one_two_three() {
    let mut contract = DecentralizedBlogContract::new();
    let author = identity("GDWSAUTHORONE");
    let first = contract.create_post(author.clone(), String::from("Qm1"), String::from("A"), 10);
    let second = contract.create_post(author.clone(), String::from("Qm2"), String::from("B"), 11);
    let third = contract.create_post(author, String::from("Qm3"), String::from("C"), 12);
    assert_eq!(first, 1);
    assert_eq!(second, 2);
    assert_eq!(third, 3);
}

#[test]
fn stats_count_posts_and_distinct_authors() {
    let mut contract = DecentralizedBlogContract::new();
    let one = identity("GDWSAUTHORONE");
    let two = identity("GDWSAUTHORTWO");
    contract.create_post(one.clone(), String::from("Qm1"), String::from("A"), 1);
    contract.create_post(two.clone(), String::from("Qm2"), String::from("B"), 2);
    contract.create_post(one, String::from("Qm3"), String::from("C"), 3);
    let stats = contract.get_stats();
    assert_eq!(stats.total_posts, 3);
    assert_eq!(stats.active_posts, 3);
    assert_eq!(stats.total_authors, 2);
}

#[test]
fn deactivate_flips_flag_and_drops_active_total() {
    let mut contract = DecentralizedBlogContract::new();
    let author = identity("GDWSAUTHORONE");
    contract.create_post(author.clone(), String::from("Qm1"), String::from("A"), 1);
    contract.create_post(author.clone(), String::from("Qm2"), String::from("B"), 2);
    let before = contract.get_stats();

    let outcome = contract.deactivate_post(1, author);
    assert_eq!(outcome, Ok(()));

    let post = contract.get_post(1);
    assert_eq!(post.is_active, false);
    let after = contract.get_stats();
    assert_eq!(after.active_posts, before.active_posts - 1);
    assert_eq!(after.total_posts, before.total_posts);
    assert_eq!(after.total_authors, before.total_authors);
}

#[test]
fn second_deactivation_fails_already_inactive() {
    let mut contract = DecentralizedBlogContract::new();
    let author = identity("GDWSAUTHORONE");
    contract.create_post(author.clone(), String::from("Qm1"), String::from("A"), 1);
    assert_eq!(contract.deactivate_post(1, author.clone()), Ok(()));
    let between = contract.get_stats();

    let outcome = contract.deactivate_post(1, author);
    assert_eq!(outcome, Err(BlogError::AlreadyInactive));
    assert_eq!(contract.get_stats(), between);
}

#[test]
fn deactivation_by_stranger_fails_unauthorized_and_changes_nothing() {
    let mut contract = DecentralizedBlogContract::new();
    let author = identity("GDWSAUTHORONE");
    let stranger = identity("GDWSAUTHORTWO");
    contract.create_post(author, String::from("Qm1"), String::from("A"), 1);
    let stats_before = contract.get_stats();
    let post_before = contract.get_post(1);

    let outcome = contract.deactivate_post(1, stranger);
    assert_eq!(outcome, Err(BlogError::UnauthorizedAction));

    let post_after = contract.get_post(1);
    assert_eq!(contract.get_stats(), stats_before);
    assert_eq!(post_after.post_id, post_before.post_id);
    assert_eq!(post_after.author, post_before.author);
    assert_eq!(post_after.content_pointer, post_before.content_pointer);
    assert_eq!(post_after.title, post_before.title);
    assert_eq!(post_after.created_at, post_before.created_at);
    assert_eq!(post_after.is_active, post_before.is_active);
}

#[test]
fn deactivating_an_unused_id_reads_as_unauthorized() {
    let mut contract = DecentralizedBlogContract::new();
    let author = identity("GDWSAUTHORONE");
    contract.create_post(author.clone(), String::from("Qm1"), String::from("A"), 1);

    let outcome = contract.deactivate_post(7, author);
    assert_eq!(outcome, Err(BlogError::UnauthorizedAction));
    assert_eq!(contract.get_stats().total_posts, 1);
}

#[test]
fn unused_id_yields_the_sentinel_record() {
    let contract = DecentralizedBlogContract::new();
    let post = contract.get_post(42);
    assert_eq!(post.post_id, 0);
    assert_eq!(post.is_active, false);
    assert_eq!(post.content_pointer, String::from("Not_Found"));
    assert_eq!(post.title, String::from("Not_Found"));
    assert_eq!(post.created_at, 0);
    assert_eq!(
        post.author,
        identity("GAAAAAAAAAAAAAAAAAAAAAAAAAAAAAAAAAAAAAAAAAAAAAAAAAAAAAAAAA")
    );
}

#[test]
fn end_to_end_create_query_deactivate() {
    let mut contract = DecentralizedBlogContract::new();
    let author_a = identity("GDWSAUTHORONE");

    let first = contract.create_post(
        author_a.clone(),
        String::from("Qm123"),
        String::from("Hello"),
        100,
    );
    assert_eq!(first, 1);

    let post = contract.get_post(1);
    assert_eq!(post.post_id, 1);
    assert_eq!(post.author, author_a);
    assert_eq!(post.is_active, true);

    let stats = contract.get_stats();
    assert_eq!(stats.total_posts, 1);
    assert_eq!(stats.active_posts, 1);
    assert_eq!(stats.total_authors, 1);

    let second = contract.create_post(
        author_a.clone(),
        String::from("Qm456"),
        String::from("Second"),
        101,
    );
    assert_eq!(second, 2);

    let stats = contract.get_stats();
    assert_eq!(stats.total_posts, 2);
    assert_eq!(stats.active_posts, 2);
    assert_eq!(stats.total_authors, 1);

    assert_eq!(contract.deactivate_post(1, author_a), Ok(()));

    let stats = contract.get_stats();
    assert_eq!(stats.total_posts, 2);
    assert_eq!(stats.active_posts, 1);
    assert_eq!(stats.total_authors, 1);
}

#[test]
fn empty_text_fields_are_accepted() {
    let mut contract = DecentralizedBlogContract::new();
    let author = identity("GDWSAUTHORONE");
    let post_id = contract.create_post(author, String::new(), String::new(), 0);
    assert_eq!(post_id, 1);
    let post = contract.get_post(1);
    assert_eq!(post.content_pointer, String::new());
    assert_eq!(post.title, String::new());
    assert_eq!(post.is_active, true);
}
