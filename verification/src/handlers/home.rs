use vstd::prelude::*;

use crate::handlers::clock::Timestamp;
use crate::handlers::numbers::{parse_u32_or_zero, str_opt_view, u32_or_zero};
use crate::handlers::response::{page_window, plain, Body, BodyView, IdentityChange, PageWindow, Response, Status};

verus! {

/// A post as the home page lists it, with its board and the viewer's vote.
#[derive(Debug, PartialEq, Eq)]
pub struct BoardPost {
    pub id: u32,
    pub created_at: Timestamp,
    pub poster_id: u32,
    pub board_name: Option<String>,
    pub board_icon: Option<String>,
    pub title: String,
    pub text: String,
    pub status: Option<i8>,
}

/// A board among the most joined ones.
#[derive(Debug, PartialEq, Eq)]
pub struct BoardEntry {
    pub name: String,
    pub member_count: u64,
    pub icon: String,
}

/// Which posts the home page lists.
#[derive(Clone, Copy, Debug, PartialEq, Eq)]
pub enum Filter {
    /// The posts of the boards the viewer is in.
    Feed,
    /// All posts.
    All,
}

/// The query of the home page.
#[derive(Debug, PartialEq, Eq)]
pub struct GetPostsQuery {
    pub filter: Option<Filter>,
    pub page: Option<u32>,
    pub search: Option<String>,
}

/// How many posts the home page shows.
pub const HOME_POSTS_PER_PAGE: u32 = 10;

/// The `LIKE` pattern of a search: the text between two `%`.
pub open spec fn like_pattern(search: Seq<char>) -> Seq<char> {
    "%"@ + search + "%"@
}

/// The pattern that `get_member_posts` and `get_all_posts` match titles and texts against.
pub fn search_pattern(search: &str) -> (p: String)
    ensures
        p@ == like_pattern(search@),
{
    let mut p = "%".to_owned();
    p.append(search);
    p.append("%");
    p
}

/// What the home page fetches: the viewer (0 where the identity is absent or
/// no number), which posts, the window of the page asked for (page 0 where none
/// is) and the search pattern (of "" where there is no search).
#[derive(Debug, PartialEq, Eq)]
pub struct HomePage {
    pub user_id: u32,
    pub filter: Filter,
    pub posts: Option<PageWindow>,
    pub pattern: String,
}

pub open spec fn filter_or_all(f: Option<Filter>) -> Filter {
    match f {
        Some(x) => x,
        None => Filter::All,
    }
}

pub open spec fn search_or_empty(s: Option<String>) -> Seq<char> {
    match s {
        Some(t) => t@,
        None => Seq::empty(),
    }
}

pub open spec fn home_page_or_zero(p: Option<u32>) -> nat {
    match p {
        Some(x) => x as nat,
        None => 0,
    }
}

/// Plans the home page for a viewer and a query.
pub fn home(identity: Option<&str>, q: &GetPostsQuery) -> (h: HomePage)
    ensures
        h.user_id == u32_or_zero(str_opt_view(identity)),
        h.filter == filter_or_all(q.filter),
        h.posts is Some <==> HOME_POSTS_PER_PAGE * home_page_or_zero(q.page) <= u32::MAX,
        h.posts matches Some(w) ==> w.limit == HOME_POSTS_PER_PAGE && w.offset == HOME_POSTS_PER_PAGE * home_page_or_zero(q.page),
        h.pattern@ == like_pattern(search_or_empty(q.search)),
{
    let filter = match q.filter {
        Some(f) => f,
        None => Filter::All,
    };
    let page: u32 = match q.page {
        Some(p) => p,
        None => 0,
    };
    let pattern = match &q.search {
        Some(s) => search_pattern(s.as_str()),
        None => {
            proof {
                reveal_strlit("");
            }
            search_pattern("")
        },
    };
    HomePage { user_id: parse_u32_or_zero(identity), filter, posts: page_window(HOME_POSTS_PER_PAGE, page), pattern }
}

/// The home page is always shown, with status 200.
pub fn home_response() -> (r: Response)
    ensures
        r@ == plain(Status::Success, BodyView::Page),
{
    Response { status: Status::Success, location: None, body: Body::Page, identity: IdentityChange::Keep }
}

} // verus!
