use ssr_modes::model::{Post, PostMetadata, PostError, ServerError};
use ssr_modes::store::{Store, seed_store, list_post_metadata, get_post, post_count};

#[test]
fn seed_store_holds_three_posts() {
    let store = seed_store();
    assert_eq!(store.len(), 3);
    assert_eq!(store.post_at(0).id, 0);
    assert_eq!(store.post_at(0).title, "My first post");
    assert_eq!(store.post_at(0).content, "This is my first post");
    assert_eq!(store.post_at(1).id, 1);
    assert_eq!(store.post_at(1).title, "My second post");
    assert_eq!(store.post_at(1).content, "This is my second post");
    assert_eq!(store.post_at(2).id, 2);
    assert_eq!(store.post_at(2).title, "My third post");
    assert_eq!(store.post_at(2).content, "This is my third post");
}

#[test]
fn get_post_finds_every_seed_id() {
    let store = seed_store();
    for id in 0..3usize {
        let got = get_post(&store, id).unwrap();
        let post = got.expect("seed id should be found");
        assert_eq!(post.id, id);
        assert_eq!(&post.title, &store.post_at(id).title);
        assert_eq!(&post.content, &store.post_at(id).content);
    }
}

#[test]
fn get_post_absent_id_is_none() {
    let store = seed_store();
    assert_eq!(get_post(&store, 999), Ok(None));
    assert_eq!(get_post(&store, 3), Ok(None));
    assert_eq!(get_post(&store, usize::MAX), Ok(None));
}

#[test]
fn get_post_returns_first_match_in_store_order() {
    let posts = vec![
        Post { id: 7, title: "a".to_string(), content: "b".to_string() },
        Post { id: 5, title: "c".to_string(), content: "d".to_string() },
    ];
    let store = Store::new(posts);
    let got = get_post(&store, 5).unwrap().unwrap();
    assert_eq!(got.title, "c");
}

#[test]
fn metadata_lists_one_entry_per_post_in_order() {
    let store = seed_store();
    let listing = list_post_metadata(&store).unwrap();
    assert_eq!(
        listing,
        vec![
            PostMetadata { id: 0, title: "My first post".to_string() },
            PostMetadata { id: 1, title: "My second post".to_string() },
            PostMetadata { id: 2, title: "My third post".to_string() },
        ]
    );
}

#[test]
fn post_count_matches_metadata_length() {
    let store = seed_store();
    let fetch = list_post_metadata(&store);
    let n = fetch.as_ref().map(|v| v.len()).unwrap_or(0);
    assert_eq!(post_count(&fetch), n);
    assert_eq!(post_count(&fetch), 3);
}

#[test]
fn post_count_of_failed_fetch_is_zero() {
    let fetch: Result<Vec<PostMetadata>, ServerError> = Err(ServerError);
    assert_eq!(post_count(&fetch), 0);
}

#[test]
fn error_messages_name_each_category() {
    assert_eq!(PostError::InvalidId.message(), "Invalid post ID.");
    assert_eq!(PostError::PostNotFound.message(), "Post not found.");
    assert_eq!(PostError::ServerError.message(), "Server error.");
}
