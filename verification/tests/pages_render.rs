use ssr_modes::model::{Post, PostError, ServerError};
use ssr_modes::store::seed_store;
use ssr_modes::pages::{Page, home_page, post_id_from_route, resolve_post_fetch, post_page,
    error_block_messages, render_route};

#[test]
fn home_page_lists_every_post_with_two_links() {
    let store = seed_store();
    let page = home_page(&store);
    match page {
        Page::Home { count, items } => {
            assert_eq!(count, 3);
            assert_eq!(items.len(), 3);
            assert_eq!(items[0].title, "My first post");
            assert_eq!(items[0].href_async, "/post/0");
            assert_eq!(items[0].href_in_order, "/post_in_order/0");
            assert_eq!(items[1].title, "My second post");
            assert_eq!(items[1].href_async, "/post/1");
            assert_eq!(items[1].href_in_order, "/post_in_order/1");
            assert_eq!(items[2].title, "My third post");
            assert_eq!(items[2].href_async, "/post/2");
            assert_eq!(items[2].href_in_order, "/post_in_order/2");
        }
        other => panic!("expected the home page, got {:?}", other),
    }
}

#[test]
fn missing_route_parameter_is_an_invalid_id() {
    assert_eq!(post_id_from_route(None), Err(PostError::InvalidId));
}

#[test]
fn unparseable_route_parameter_is_an_invalid_id() {
    assert_eq!(post_id_from_route(Some("abc")), Err(PostError::InvalidId));
    assert_eq!(post_id_from_route(Some("")), Err(PostError::InvalidId));
    assert_eq!(post_id_from_route(Some("1")), Ok(1));
}

#[test]
fn resolve_categorizes_each_fetch_outcome() {
    let post = Post { id: 4, title: "t".to_string(), content: "c".to_string() };
    assert_eq!(
        resolve_post_fetch(Ok(Some(post))),
        Ok(Post { id: 4, title: "t".to_string(), content: "c".to_string() })
    );
    assert_eq!(resolve_post_fetch(Ok(None)), Err(PostError::PostNotFound));
    assert_eq!(resolve_post_fetch(Err(ServerError)), Err(PostError::ServerError));
}

#[test]
fn post_page_finds_a_seed_post() {
    let store = seed_store();
    let post = post_page(&store, Some("1")).unwrap();
    assert_eq!(post.id, 1);
    assert_eq!(post.title, "My second post");
    assert_eq!(post.content, "This is my second post");
}

#[test]
fn post_page_absent_id_is_post_not_found() {
    let store = seed_store();
    assert_eq!(post_page(&store, Some("999")), Err(PostError::PostNotFound));
}

#[test]
fn post_page_invalid_id_short_circuits() {
    let store = seed_store();
    assert_eq!(post_page(&store, Some("abc")), Err(PostError::InvalidId));
    assert_eq!(post_page(&store, None), Err(PostError::InvalidId));
}

#[test]
fn error_block_stringifies_every_failure() {
    let msgs = error_block_messages(&vec![
        PostError::InvalidId,
        PostError::PostNotFound,
        PostError::ServerError,
    ]);
    assert_eq!(msgs, vec!["Invalid post ID.", "Post not found.", "Server error."]);
}

#[test]
fn rendering_the_root_shows_three_posts() {
    let store = seed_store();
    match render_route(&store, "/") {
        Page::Home { count, items } => {
            assert_eq!(count, 3);
            assert_eq!(items.len(), 3);
            for item in &items {
                assert!(!item.href_async.is_empty());
                assert!(!item.href_in_order.is_empty());
            }
        }
        other => panic!("expected the home page, got {:?}", other),
    }
}

#[test]
fn rendering_a_post_route_shows_title_and_content() {
    let store = seed_store();
    assert_eq!(
        render_route(&store, "/post/1"),
        Page::PostDetail {
            title: "My second post".to_string(),
            content: "This is my second post".to_string(),
        }
    );
    assert_eq!(
        render_route(&store, "/post_in_order/2"),
        Page::PostDetail {
            title: "My third post".to_string(),
            content: "This is my third post".to_string(),
        }
    );
}

#[test]
fn rendering_an_unparseable_id_shows_the_failure_block() {
    let store = seed_store();
    assert_eq!(
        render_route(&store, "/post/abc"),
        Page::Failure { messages: vec!["Invalid post ID.".to_string()] }
    );
}

#[test]
fn rendering_an_absent_id_shows_the_failure_block() {
    let store = seed_store();
    assert_eq!(
        render_route(&store, "/post/999"),
        Page::Failure { messages: vec!["Post not found.".to_string()] }
    );
}

#[test]
fn rendering_an_unmatched_path_falls_back() {
    let store = seed_store();
    assert_eq!(render_route(&store, "/nonexistent"), Page::NotFound);
}

#[test]
fn home_items_format_multi_digit_ids() {
    let listing = vec![
        ssr_modes::model::PostMetadata { id: 35, title: "a".to_string() },
        ssr_modes::model::PostMetadata { id: 1000, title: "b".to_string() },
    ];
    let items = ssr_modes::pages::home_items(&listing);
    assert_eq!(items[0].href_async, "/post/35");
    assert_eq!(items[0].href_in_order, "/post_in_order/35");
    assert_eq!(items[1].href_async, "/post/1000");
    assert_eq!(items[1].href_in_order, "/post_in_order/1000");
}
