use forum::handlers::home::{home, home_response, search_pattern, Filter, GetPostsQuery};
use forum::handlers::response::{Body, IdentityChange, PageWindow, Response, Status};

#[test]
fn home_defaults() {
    let h = home(None, &GetPostsQuery { filter: None, page: None, search: None });
    assert_eq!(h.user_id, 0);
    assert_eq!(h.filter, Filter::All);
    assert_eq!(h.posts, Some(PageWindow { limit: 10, offset: 0 }));
    assert_eq!(h.pattern, "%%");
}

#[test]
fn home_feed_with_search() {
    let q = GetPostsQuery { filter: Some(Filter::Feed), page: Some(3), search: Some("rust".to_string()) };
    let h = home(Some("6"), &q);
    assert_eq!(h.user_id, 6);
    assert_eq!(h.filter, Filter::Feed);
    assert_eq!(h.posts, Some(PageWindow { limit: 10, offset: 30 }));
    assert_eq!(h.pattern, "%rust%");
}

#[test]
fn home_page_out_of_range() {
    let h = home(Some("6"), &GetPostsQuery { filter: None, page: Some(u32::MAX), search: None });
    assert_eq!(h.posts, None);
}

#[test]
fn search_patterns() {
    assert_eq!(search_pattern(""), "%%");
    assert_eq!(search_pattern("a b"), "%a b%");
}

#[test]
fn home_is_always_shown() {
    assert_eq!(
        home_response(),
        Response { status: Status::Success, location: None, body: Body::Page, identity: IdentityChange::Keep }
    );
}
