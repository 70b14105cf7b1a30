use vstd::prelude::*;

use crate::handlers::board::{board_param, path_param};
use crate::handlers::clock::{
    chrono_elapsed, elapsed_hours, elapsed_minutes, short_date, short_date_text, Timestamp,
};
use crate::handlers::numbers::{
    decimal, error_text, parse_u32, parse_u32_or_zero, push_decimal, str_opt_view, u32_or_zero, parse_unsigned,
};
use crate::handlers::reply::{Reply, ReplyData};
use crate::handlers::response::{
    board_path, empty_response, located, opt_view, page_window, plain, text_response, to_board, yes, is_yes, Body,
    BodyView, IdentityChange, PageWindow, Response, Status, Step, StepView,
};
use crate::handlers::user::User;
use crate::handlers::utils::{escape_html, sanitize_html};

verus! {

/// The form of a new post.
#[derive(Debug, PartialEq, Eq)]
pub struct NewPostdata {
    pub title: String,
    pub text: String,
}

/// A post, as the `posts` table holds it.
#[derive(Debug, PartialEq, Eq)]
pub struct Post {
    pub id: u32,
    pub created_at: Timestamp,
    pub poster_id: u32,
    pub board_id: u32,
    pub title: String,
    pub text: String,
}

/// A post with its poster's picture and its board's name.
#[derive(Debug, PartialEq, Eq)]
pub struct PostData {
    pub id: u32,
    pub created_at: Timestamp,
    pub poster_id: u32,
    pub poster_pfp: String,
    pub board_name: String,
    pub title: String,
    pub text: String,
}

/// The query of a post's page.
#[derive(Debug, PartialEq, Eq)]
pub struct PostQuery {
    pub page: Option<u32>,
}

/// How many replies a post's page shows.
pub const REPLIES_PER_PAGE: u32 = 10;

// ---------------------------------------------------------------------------
// Posting

#[derive(Clone, Copy, Debug, PartialEq, Eq)]
pub enum NewPostQuestion {
    /// Is the user a member of the board?
    CheckMember,
    /// Insert the post (see `NewPost::stored_text`); the answer is the new row's id.
    InsertPost,
}

/// A new post on a board, with what was answered so far.
#[derive(Debug, PartialEq, Eq)]
pub struct NewPost {
    pub user_id: u32,
    pub board: String,
    pub form: NewPostdata,
    pub member: Option<Result<bool, String>>,
    pub inserted: Option<Result<u64, String>>,
}

/// Starts user `user_id`'s post on the board named in the path (none names the board "").
pub fn newpost(user_id: u32, board: Option<&str>, form: NewPostdata) -> (s: NewPost)
    ensures
        s.user_id == user_id,
        s.board@ == board_param(str_opt_view(board)),
        s.form == form,
        s.member is None,
        s.inserted is None,
{
    NewPost { user_id, board: path_param(board), form, member: None, inserted: None }
}

impl NewPost {
    /// The text that is stored: the form's text with angle brackets escaped
    /// (the title is stored as it is).
    pub fn stored_text(&self) -> (t: String)
        ensures
            t@ == escape_html(self.form.text@),
    {
        sanitize_html(self.form.text.as_str())
    }

    /// Only a member of a board posts on it; the client is sent to the board
    /// with the new post's id (the row id cut to 32 bits).
    pub open spec fn plan(&self) -> StepView<NewPostQuestion> {
        match self.member {
            None => StepView::Ask(NewPostQuestion::CheckMember),
            Some(m) => if !yes(m) {
                StepView::Respond(plain(Status::Unauthorized, BodyView::Text("User not in board"@)))
            } else {
                match self.inserted {
                    None => StepView::Ask(NewPostQuestion::InsertPost),
                    Some(Ok(id)) => StepView::Respond(
                        located(Status::Found, board_path(self.board@), BodyView::JsonNumber(id as u32)),
                    ),
                    Some(Err(e)) => StepView::Respond(plain(Status::UnprocessableEntity, BodyView::Text(e@))),
                }
            },
        }
    }

    pub fn next(&self) -> (s: Step<NewPostQuestion>)
        ensures
            s@ == self.plan(),
    {
        match &self.member {
            None => return Step::Ask(NewPostQuestion::CheckMember),
            Some(m) => if !is_yes(m) {
                return Step::Respond(text_response(Status::Unauthorized, "User not in board"));
            },
        }
        match &self.inserted {
            None => Step::Ask(NewPostQuestion::InsertPost),
            Some(Ok(id)) => Step::Respond(to_board(Status::Found, self.board.as_str(), Body::JsonNumber(*id as u32))),
            Some(Err(e)) => Step::Respond(text_response(Status::UnprocessableEntity, e.as_str())),
        }
    }
}

// ---------------------------------------------------------------------------
// Votes on posts and replies

#[derive(Clone, Copy, Debug, PartialEq, Eq)]
pub enum VoteQuestion {
    /// Store the user's vote on the post or reply with this id (replacing an earlier one).
    Record { id: u32, is_like: bool },
}

/// A like or dislike of the post or reply named in the path.
#[derive(Debug, PartialEq, Eq)]
pub struct Vote {
    pub user_id: u32,
    pub target: Option<String>,
    pub is_like: bool,
    pub recorded: Option<Result<(), String>>,
}

impl Vote {
    pub fn new(user_id: u32, target: Option<&str>, is_like: bool) -> (v: Vote)
        ensures
            v.user_id == user_id,
            opt_view(v.target) == str_opt_view(target),
            v.is_like == is_like,
            v.recorded is None,
    {
        let target = match target {
            Some(t) => Some(t.to_owned()),
            None => None,
        };
        Vote { user_id, target, is_like, recorded: None }
    }

    /// A vote names its target by a `u32`: without one it is answered 422,
    /// with text that is no `u32` 422 with the parse error's message. A stored
    /// vote is answered 200, a failure to store it 500 with the reason.
    pub open spec fn plan(&self) -> StepView<VoteQuestion> {
        match self.target {
            None => StepView::Respond(plain(Status::UnprocessableEntity, BodyView::Empty)),
            Some(t) => match parse_unsigned(t@, u32::MAX as nat) {
                Err(k) => StepView::Respond(plain(Status::UnprocessableEntity, BodyView::Text(error_text(k)))),
                Ok(id) => match self.recorded {
                    None => StepView::Ask(VoteQuestion::Record { id: id as u32, is_like: self.is_like }),
                    Some(Ok(())) => StepView::Respond(plain(Status::Success, BodyView::Empty)),
                    Some(Err(e)) => StepView::Respond(plain(Status::InternalServerError, BodyView::Text(e@))),
                },
            },
        }
    }

    pub fn next(&self) -> (s: Step<VoteQuestion>)
        ensures
            s@ == self.plan(),
    {
        match &self.target {
            None => Step::Respond(empty_response(Status::UnprocessableEntity)),
            Some(t) => match parse_u32(t.as_str()) {
                Err(e) => Step::Respond(Response {
                    status: Status::UnprocessableEntity,
                    location: None,
                    body: Body::Text(e.message()),
                    identity: IdentityChange::Keep,
                }),
                Ok(id) => match &self.recorded {
                    None => Step::Ask(VoteQuestion::Record { id, is_like: self.is_like }),
                    Some(Ok(())) => Step::Respond(empty_response(Status::Success)),
                    Some(Err(e)) => Step::Respond(text_response(Status::InternalServerError, e.as_str())),
                },
            },
        }
    }
}

/// A like of the post named in the path.
pub fn like_post(user_id: u32, post: Option<&str>) -> (v: Vote)
    ensures
        v.user_id == user_id,
        opt_view(v.target) == str_opt_view(post),
        v.is_like,
        v.recorded is None,
{
    Vote::new(user_id, post, true)
}

/// A dislike of the post named in the path.
pub fn dislike_post(user_id: u32, post: Option<&str>) -> (v: Vote)
    ensures
        v.user_id == user_id,
        opt_view(v.target) == str_opt_view(post),
        !v.is_like,
        v.recorded is None,
{
    Vote::new(user_id, post, false)
}

/// The viewer's vote on a post, from the stored `is_like` (none where there is no row).
pub fn post_status(is_like: Option<i8>) -> (s: Option<bool>)
    ensures
        s == vote_of(is_like),
{
    match is_like {
        Some(v) => Some(v != 0),
        None => None,
    }
}

// ---------------------------------------------------------------------------
// Deleting a post

#[derive(Clone, Copy, Debug, PartialEq, Eq)]
pub enum DeletePostQuestion {
    /// The post's poster and board name.
    FetchPost,
    /// Does the user own the post's board?
    CheckBoardOwner,
    /// Delete the post.
    Delete,
}

/// A request to delete a post, with what was answered so far. The post's id is
/// read from the path, 0 where it is absent or no `u32`.
#[derive(Debug, PartialEq, Eq)]
pub struct DeletePost {
    pub user_id: u32,
    pub post_id: u32,
    pub post: Option<Result<(u32, String), String>>,
    pub board_owner: Option<Result<bool, String>>,
    pub deleted: Option<Result<(), String>>,
}

/// Starts user `user_id`'s request to delete the post named in the path.
pub fn delete_post(user_id: u32, post: Option<&str>) -> (s: DeletePost)
    ensures
        s.user_id == user_id,
        s.post_id == u32_or_zero(str_opt_view(post)),
        s.post is None,
        s.board_owner is None,
        s.deleted is None,
{
    DeletePost { user_id, post_id: parse_u32_or_zero(post), post: None, board_owner: None, deleted: None }
}

impl DeletePost {
    /// A post is deleted by its poster, or by the owner of its board (the
    /// board's owner is asked about only where the user is not the poster).
    pub open spec fn plan(&self) -> StepView<DeletePostQuestion> {
        match self.post {
            None => StepView::Ask(DeletePostQuestion::FetchPost),
            Some(Err(e)) => StepView::Respond(plain(Status::InternalServerError, BodyView::Text(e@))),
            Some(Ok((poster, _))) => {
                let deletion = match self.deleted {
                    None => StepView::Ask(DeletePostQuestion::Delete),
                    Some(Ok(())) => StepView::Respond(plain(Status::Success, BodyView::Empty)),
                    Some(Err(e)) => StepView::Respond(plain(Status::InternalServerError, BodyView::Text(e@))),
                };
                if poster == self.user_id {
                    deletion
                } else {
                    match self.board_owner {
                        None => StepView::Ask(DeletePostQuestion::CheckBoardOwner),
                        Some(o) => if yes(o) {
                            deletion
                        } else {
                            StepView::Respond(plain(
                                Status::Forbidden,
                                BodyView::Text("Only the owner of the post or owner of the board can delete posts!"@),
                            ))
                        },
                    }
                }
            },
        }
    }

    pub fn next(&self) -> (s: Step<DeletePostQuestion>)
        ensures
            s@ == self.plan(),
    {
        let poster = match &self.post {
            None => return Step::Ask(DeletePostQuestion::FetchPost),
            Some(Err(e)) => return Step::Respond(text_response(Status::InternalServerError, e.as_str())),
            Some(Ok((poster, _))) => *poster,
        };
        if poster != self.user_id {
            match &self.board_owner {
                None => return Step::Ask(DeletePostQuestion::CheckBoardOwner),
                Some(o) => if !is_yes(o) {
                    return Step::Respond(text_response(
                        Status::Forbidden,
                        "Only the owner of the post or owner of the board can delete posts!",
                    ));
                },
            }
        }
        match &self.deleted {
            None => Step::Ask(DeletePostQuestion::Delete),
            Some(Ok(())) => Step::Respond(empty_response(Status::Success)),
            Some(Err(e)) => Step::Respond(text_response(Status::InternalServerError, e.as_str())),
        }
    }
}

// ---------------------------------------------------------------------------
// How long ago

/// How long ago `old` was, seen at `now`: within the first minute "a few
/// seconds ago" (also for instants up to a minute ahead), then in minutes up
/// to an hour, in hours up to a day, and after that (or further ahead) the
/// date `date` of `old`.
pub open spec fn time_message(now: Timestamp, old: Timestamp, date: Seq<char>) -> Seq<char> {
    let mins = elapsed_minutes(now, old);
    let hours = elapsed_hours(now, old);
    if mins == 0 {
        "a few seconds ago"@
    } else if mins == 1 {
        decimal(1) + " minute ago"@
    } else if 2 <= mins <= 59 {
        decimal(mins as nat) + " minutes ago"@
    } else if 60 <= mins <= 119 {
        decimal(hours as nat) + " hour ago"@
    } else if 120 <= mins <= 1439 {
        decimal(hours as nat) + " hours ago"@
    } else {
        date
    }
}

/// How long ago `old` was at `now`, given `old`'s date text.
pub fn time_msg_at(now: &Timestamp, old: &Timestamp, date: &str) -> (msg: String)
    requires
        now.wf(),
        old.wf(),
    ensures
        msg@ == time_message(*now, *old, date@),
{
    let (mins, hours) = chrono_elapsed(now, old);
    if mins == 0 {
        "a few seconds ago".to_owned()
    } else if mins == 1 {
        let mut m = String::new();
        push_decimal(&mut m, 1);
        m.append(" minute ago");
        m
    } else if 2 <= mins && mins <= 59 {
        let mut m = String::new();
        push_decimal(&mut m, mins as u64);
        m.append(" minutes ago");
        m
    } else if 60 <= mins && mins <= 119 {
        let mut m = String::new();
        push_decimal(&mut m, hours as u64);
        m.append(" hour ago");
        m
    } else if 120 <= mins && mins <= 1439 {
        let mut m = String::new();
        push_decimal(&mut m, hours as u64);
        m.append(" hours ago");
        m
    } else {
        date.to_owned()
    }
}

/// How long ago `old` was at `now`, with chrono's `%x` date of `old` where
/// the message is a date. The caller reads the clock.
pub fn time_msg(now: &Timestamp, old: &Timestamp) -> (msg: String)
    requires
        now.wf(),
        old.wf(),
    ensures
        msg@ == time_message(*now, *old, short_date_text(old.secs as int)),
{
    let date = short_date(old);
    time_msg_at(now, old, date.as_str())
}

// ---------------------------------------------------------------------------
// A post's page

#[derive(Clone, Copy, Debug, PartialEq, Eq)]
pub enum PostPageQuestion {
    /// The post, with its poster's id.
    FetchPost,
    /// The poster of the post.
    FetchPoster { poster_id: u32 },
}

/// A post's page, with what was fetched so far. The post's id comes from the
/// path and the viewer's from the identity, each 0 where it is absent or no
/// `u32`; the replies shown are those of the page asked for (page 0 where none is).
#[derive(Debug, PartialEq, Eq)]
pub struct PostPage {
    pub post_id: u32,
    pub user_id: u32,
    pub replies: Option<PageWindow>,
    pub post: Option<Result<u32, String>>,
    pub poster: Option<Result<(), String>>,
}

pub open spec fn post_page_or_zero(q: PostQuery) -> nat {
    match q.page {
        Some(p) => p as nat,
        None => 0,
    }
}

/// Starts a post's page for the viewer with `identity`, the post named in the path and the query.
pub fn post_pg(identity: Option<&str>, post: Option<&str>, q: &PostQuery) -> (p: PostPage)
    ensures
        p.post_id == u32_or_zero(str_opt_view(post)),
        p.user_id == u32_or_zero(str_opt_view(identity)),
        p.replies is Some <==> REPLIES_PER_PAGE * post_page_or_zero(*q) <= u32::MAX,
        p.replies matches Some(w) ==> w.limit == REPLIES_PER_PAGE && w.offset == REPLIES_PER_PAGE
            * post_page_or_zero(*q),
        p.post is None,
        p.poster is None,
{
    let page: u32 = match q.page {
        Some(p) => p,
        None => 0,
    };
    PostPage {
        post_id: parse_u32_or_zero(post),
        user_id: parse_u32_or_zero(identity),
        replies: page_window(REPLIES_PER_PAGE, page),
        post: None,
        poster: None,
    }
}

impl PostPage {
    /// The page is shown with 302 once the post and its poster are found;
    /// a failure to find either is answered 404 with its reason.
    pub open spec fn plan(&self) -> StepView<PostPageQuestion> {
        match self.post {
            None => StepView::Ask(PostPageQuestion::FetchPost),
            Some(Err(x)) => StepView::Respond(plain(Status::NotFound, BodyView::Text(x@))),
            Some(Ok(poster_id)) => match self.poster {
                None => StepView::Ask(PostPageQuestion::FetchPoster { poster_id }),
                Some(Err(x)) => StepView::Respond(plain(Status::NotFound, BodyView::Text(x@))),
                Some(Ok(())) => StepView::Respond(plain(Status::Found, BodyView::Page)),
            },
        }
    }

    pub fn next(&self) -> (s: Step<PostPageQuestion>)
        ensures
            s@ == self.plan(),
    {
        match &self.post {
            None => Step::Ask(PostPageQuestion::FetchPost),
            Some(Err(x)) => Step::Respond(text_response(Status::NotFound, x.as_str())),
            Some(Ok(poster_id)) => match &self.poster {
                None => Step::Ask(PostPageQuestion::FetchPoster { poster_id: *poster_id }),
                Some(Err(x)) => Step::Respond(text_response(Status::NotFound, x.as_str())),
                Some(Ok(())) => Step::Respond(Response {
                    status: Status::Found,
                    location: None,
                    body: Body::Page,
                    identity: IdentityChange::Keep,
                }),
            },
        }
    }
}

/// The replies that a post's page shows: of `replies`, in order, those whose
/// poster was found (`posters[i]`), each with its poster and the viewer's vote
/// (`statuses[i]`).
pub open spec fn shown_replies(
    replies: Seq<Reply>,
    posters: Seq<Option<User>>,
    statuses: Seq<Option<bool>>,
) -> Seq<ReplyData>
    decreases replies.len(),
{
    if replies.len() == 0 {
        Seq::empty()
    } else {
        let earlier = shown_replies(replies.drop_last(), posters.drop_last(), statuses.drop_last());
        match posters.last() {
            None => earlier,
            Some(u) => earlier.push(ReplyData {
                id: replies.last().id,
                created_at: replies.last().created_at,
                poster_data: u,
                text: replies.last().text,
                status: statuses.last(),
            }),
        }
    }
}

/// Pairs the replies of a post's page with their posters and the viewer's
/// votes, leaving out those whose poster could not be fetched.
pub fn post_replies(replies: Vec<Reply>, posters: Vec<Option<User>>, statuses: Vec<Option<bool>>) -> (shown: Vec<ReplyData>)
    requires
        posters@.len() == replies@.len(),
        statuses@.len() == replies@.len(),
    ensures
        shown@ == shown_replies(replies@, posters@, statuses@),
{
    let ghost rs = replies@;
    let ghost ps = posters@;
    let ghost ss = statuses@;
    let n = replies.len();
    let mut replies = replies;
    let mut posters = posters;
    let mut statuses = statuses;
    let mut shown: Vec<ReplyData> = Vec::new();
    let mut i: usize = 0;
    while i < n
        invariant
            n == rs.len(),
            ps.len() == n,
            ss.len() == n,
            i <= n,
            replies@ == rs.skip(i as int),
            posters@ == ps.skip(i as int),
            statuses@ == ss.skip(i as int),
            shown@ == shown_replies(rs.take(i as int), ps.take(i as int), ss.take(i as int)),
        decreases n - i,
    {
        let r = replies.remove(0);
        let p = posters.remove(0);
        let s = statuses.remove(0);
        proof {
            assert(rs.take(i + 1).drop_last() =~= rs.take(i as int));
            assert(ps.take(i + 1).drop_last() =~= ps.take(i as int));
            assert(ss.take(i + 1).drop_last() =~= ss.take(i as int));
            assert(rs.take(i + 1).last() == r);
            assert(ps.take(i + 1).last() == p);
            assert(ss.take(i + 1).last() == s);
            assert(replies@ =~= rs.skip(i + 1));
            assert(posters@ =~= ps.skip(i + 1));
            assert(statuses@ =~= ss.skip(i + 1));
        }
        match p {
            Some(u) => {
                shown.push(ReplyData { id: r.id, created_at: r.created_at, poster_data: u, text: r.text, status: s });
            },
            None => {},
        }
        i = i + 1;
    }
    proof {
        assert(rs.take(n as int) =~= rs);
        assert(ps.take(n as int) =~= ps);
        assert(ss.take(n as int) =~= ss);
    }
    shown
}

// ---------------------------------------------------------------------------
// What the post handlers guarantee

/// Posting asks each question at most once, stores a post only from a member
/// of the board, and never stores an angle bracket of the text.
pub proof fn new_post_only_by_member(s: NewPost)
    ensures
        s.plan() == StepView::<NewPostQuestion>::Ask(NewPostQuestion::CheckMember) ==> s.member is None,
        s.plan() == StepView::<NewPostQuestion>::Ask(NewPostQuestion::InsertPost) ==> {
            &&& s.inserted is None
            &&& s.member matches Some(m) && yes(m)
        },
        crate::handlers::utils::bracket_free(escape_html(s.form.text@)),
{
    crate::handlers::utils::escaped_text_is_bracket_free(s.form.text@);
}

/// A vote is stored at most once, for the target that the path names, and
/// only where the path's text is a `u32`.
pub proof fn vote_records_named_target(v: Vote)
    ensures
        v.plan() matches StepView::Ask(VoteQuestion::Record { id, is_like }) ==> {
            &&& v.recorded is None
            &&& is_like == v.is_like
            &&& v.target matches Some(t) && parse_unsigned(t@, u32::MAX as nat) == Ok::<nat, crate::handlers::numbers::IntErrorKind>(id as nat)
        },
{
    if let Some(t) = v.target {
        crate::handlers::numbers::parse_unsigned_bounded(t@, u32::MAX as nat);
    }
}

/// How MySQL stores a `bool`: 1 for true, 0 for false.
pub open spec fn stored_bool(b: bool) -> i8 {
    if b {
        1
    } else {
        0
    }
}

/// The vote that `post_status` and `reply_status` read from a stored value.
pub open spec fn vote_of(is_like: Option<i8>) -> Option<bool> {
    match is_like {
        Some(v) => Some(v != 0),
        None => None,
    }
}

/// A vote that is recorded is read back as cast: the vote stores the
/// like or dislike for the target that the path names, and the stored value
/// reads back as that like or dislike.
pub proof fn recorded_vote_reads_back(v: Vote)
    ensures
        v.plan() matches StepView::Ask(VoteQuestion::Record { id, is_like }) ==> {
            &&& is_like == v.is_like
            &&& vote_of(Some(stored_bool(is_like))) == Some(is_like)
        },
{
}

/// A post is deleted only by its poster or by the owner of its board, and the
/// board's owner is asked about only for someone else's post.
pub proof fn delete_post_only_by_poster_or_board_owner(s: DeletePost)
    ensures
        s.plan() == StepView::<DeletePostQuestion>::Ask(DeletePostQuestion::FetchPost) ==> s.post is None,
        s.plan() == StepView::<DeletePostQuestion>::Ask(DeletePostQuestion::CheckBoardOwner) ==> {
            &&& s.board_owner is None
            &&& s.post matches Some(Ok((poster, _))) && poster != s.user_id
        },
        s.plan() == StepView::<DeletePostQuestion>::Ask(DeletePostQuestion::Delete) ==> {
            &&& s.deleted is None
            &&& s.post matches Some(Ok((poster, _)))
            &&& poster == s.user_id || (s.board_owner matches Some(o) && yes(o))
        },
{
}

/// A post's page fetches the post, then its poster, each once.
pub proof fn post_page_fetches_once(p: PostPage)
    ensures
        p.plan() == StepView::<PostPageQuestion>::Ask(PostPageQuestion::FetchPost) ==> p.post is None,
        p.plan() matches StepView::Ask(PostPageQuestion::FetchPoster { poster_id }) ==> p.poster is None
            && p.post == Some(Ok::<u32, String>(poster_id)),
{
}

/// What was posted less than a minute before (or is at most a minute ahead)
/// reads "a few seconds ago". Where a leap second is involved, chrono counts
/// it, so there the instants must be less than 59 seconds apart.
pub proof fn recent_posts_read_a_few_seconds_ago(now: Timestamp, old: Timestamp, date: Seq<char>)
    requires
        now.wf(),
        old.wf(),
        -60 < (now.secs - old.secs) < 60,
    ensures
        (now.nanos < 1_000_000_000 && old.nanos < 1_000_000_000) || -59 < (now.secs - old.secs) < 59
            ==> time_message(now, old, date) == "a few seconds ago"@,
{
    let adj = crate::handlers::clock::leap_adjustment(now, old);
    let total = (now.secs - old.secs + adj) * 1_000_000_000 + (now.nanos - old.nanos);
    if now.nanos < 1_000_000_000 && old.nanos < 1_000_000_000 {
        assert(adj == 0);
        assert(-61_000_000_000 < total < 61_000_000_000);
    } else if -59 < (now.secs - old.secs) < 59 {
        assert(-60_000_000_000 < total < 60_000_000_000);
    }
}

/// Every reply shown has its poster, and no more replies are shown than were fetched.
pub proof fn shown_replies_have_posters(replies: Seq<Reply>, posters: Seq<Option<User>>, statuses: Seq<Option<bool>>)
    requires
        posters.len() == replies.len(),
        statuses.len() == replies.len(),
    ensures
        shown_replies(replies, posters, statuses).len() <= replies.len(),
        forall|i: int| 0 <= i < shown_replies(replies, posters, statuses).len() ==>
            posters.contains(Some(#[trigger] shown_replies(replies, posters, statuses)[i].poster_data)),
    decreases replies.len(),
{
    if replies.len() > 0 {
        shown_replies_have_posters(replies.drop_last(), posters.drop_last(), statuses.drop_last());
        let earlier = shown_replies(replies.drop_last(), posters.drop_last(), statuses.drop_last());
        let shown = shown_replies(replies, posters, statuses);
        assert forall|i: int| 0 <= i < shown.len() implies posters.contains(Some(#[trigger] shown[i].poster_data)) by {
            if i < earlier.len() {
                assert(shown[i] == earlier[i]);
                let j = choose|j: int| 0 <= j < posters.drop_last().len() && posters.drop_last()[j] == Some(earlier[i].poster_data);
                assert(posters[j] == posters.drop_last()[j]);
            } else {
                assert(posters[posters.len() - 1] == posters.last());
            }
        }
    }
}

// ---------------------------------------------------------------------------
// The answers of the post handlers, outcome by outcome

/// Whether the user may delete the post that the store found: they posted
/// it, or they own its board (a failed check counts as no).
pub open spec fn may_delete(s: DeletePost) -> bool {
    s.post matches Some(Ok((poster, _))) && (poster == s.user_id || (s.board_owner matches Some(o) && yes(o)))
}

/// The poster of a post, or the owner of its board, deletes it: the deletion
/// is asked for, and its outcome decides the answer (200 with no body, or
/// 500 with the store's reason).
pub proof fn delete_post_by_allowed_user(s: DeletePost)
    requires
        may_delete(s),
    ensures
        match s.deleted {
            None => s.plan() == StepView::<DeletePostQuestion>::Ask(DeletePostQuestion::Delete),
            Some(Ok(_)) => s.plan() == StepView::<DeletePostQuestion>::Respond(plain(Status::Success, BodyView::Empty)),
            Some(Err(e)) => s.plan() == StepView::<DeletePostQuestion>::Respond(
                plain(Status::InternalServerError, BodyView::Text(e@)),
            ),
        },
{
}

/// Anyone else is refused with 403, whatever the deletion slot holds.
pub proof fn delete_post_refuses_others(s: DeletePost, poster: u32, board: String, o: Result<bool, String>)
    requires
        s.post == Some(Ok::<(u32, String), String>((poster, board))),
        poster != s.user_id,
        s.board_owner == Some(o),
        !yes(o),
    ensures
        s.plan() == StepView::<DeletePostQuestion>::Respond(
            plain(Status::Forbidden, BodyView::Text("Only the owner of the post or owner of the board can delete posts!"@)),
        ),
{
}

/// A post that cannot be fetched is answered 500 with the reason.
pub proof fn delete_post_of_missing_post(s: DeletePost, reason: String)
    requires
        s.post == Some(Err::<(u32, String), String>(reason)),
    ensures
        s.plan() == StepView::<DeletePostQuestion>::Respond(plain(Status::InternalServerError, BodyView::Text(reason@))),
{
}

/// 403 comes only to someone who neither posted the post nor owns its board,
/// and 200 only after a deletion that such a user may make succeeded.
pub proof fn delete_post_answers_match_rights(s: DeletePost)
    ensures
        s.plan() matches StepView::Respond(r) && r.status == Status::Forbidden ==> !may_delete(s) && s.post matches Some(Ok(_)),
        s.plan() matches StepView::Respond(r) && r.status == Status::Success ==> may_delete(s) && s.deleted matches Some(Ok(_)),
{
}

/// Posting: a member's post is stored and the client sent to the board with
/// its id; anyone else is refused with 401.
pub proof fn newpost_answers(s: NewPost)
    ensures
        s.member matches Some(m) && !yes(m) ==> s.plan() == StepView::<NewPostQuestion>::Respond(
            plain(Status::Unauthorized, BodyView::Text("User not in board"@)),
        ),
        s.member matches Some(m) && yes(m) ==> (match s.inserted {
            None => s.plan() == StepView::<NewPostQuestion>::Ask(NewPostQuestion::InsertPost),
            Some(Ok(id)) => s.plan() == StepView::<NewPostQuestion>::Respond(
                located(Status::Found, "/boards/"@ + s.board@, BodyView::JsonNumber((id % 0x1_0000_0000) as u32)),
            ),
            Some(Err(e)) => s.plan() == StepView::<NewPostQuestion>::Respond(
                plain(Status::UnprocessableEntity, BodyView::Text(e@)),
            ),
        }),
{
    if let Some(Ok(id)) = s.inserted {
        assert((id as u32) == (id % 0x1_0000_0000) as u32) by (bit_vector);
    }
}

/// "How long ago", by the whole minutes elapsed: under one minute either way
/// "a few seconds ago"; one minute "1 minute ago"; 2 to 59 minutes "N minutes
/// ago"; 60 to 119 minutes "1 hour ago"; 120 to 1439 minutes "H hours ago"
/// with H the whole hours; any other count, ahead or a day or more back, the
/// date.
pub proof fn time_message_by_minutes(now: Timestamp, old: Timestamp, date: Seq<char>)
    ensures
        elapsed_minutes(now, old) == 0 ==> time_message(now, old, date) == "a few seconds ago"@,
        elapsed_minutes(now, old) == 1 ==> time_message(now, old, date) == seq!['1'] + " minute ago"@,
        2 <= elapsed_minutes(now, old) <= 59 ==> time_message(now, old, date)
            == decimal(elapsed_minutes(now, old) as nat) + " minutes ago"@,
        60 <= elapsed_minutes(now, old) <= 119 ==> time_message(now, old, date) == seq!['1'] + " hour ago"@,
        120 <= elapsed_minutes(now, old) <= 1439 ==> time_message(now, old, date)
            == decimal(elapsed_hours(now, old) as nat) + " hours ago"@
            && 2 <= elapsed_hours(now, old) <= 23,
        (elapsed_minutes(now, old) < 0 || elapsed_minutes(now, old) >= 1440) ==> time_message(now, old, date) == date,
{
    let secs = crate::handlers::clock::elapsed_seconds(now, old);
    let mins = elapsed_minutes(now, old);
    let hours = elapsed_hours(now, old);
    assert(decimal(1) == seq!['1']);
    if 60 <= mins <= 119 {
        assert(3600 <= secs < 7200);
        assert(hours == 1);
    }
    if 120 <= mins <= 1439 {
        assert(7200 <= secs < 86400);
    }
}

/// A vote for a target named by a `u32` is recorded for that target, as a
/// like or dislike as asked; its outcome decides the answer (200 with no
/// body, or 500 with the reason). Without a target it is answered 422 with no
/// body; with text that is no `u32`, 422 with the parse error's message.
pub proof fn vote_answers(v: Vote)
    ensures
        v.target is None ==> v.plan() == StepView::<VoteQuestion>::Respond(plain(Status::UnprocessableEntity, BodyView::Empty)),
        v.target matches Some(t) ==> (match parse_unsigned(t@, u32::MAX as nat) {
            Err(k) => v.plan() == StepView::<VoteQuestion>::Respond(
                plain(Status::UnprocessableEntity, BodyView::Text(error_text(k))),
            ),
            Ok(id) => match v.recorded {
                None => v.plan() == StepView::<VoteQuestion>::Ask(VoteQuestion::Record { id: id as u32, is_like: v.is_like }),
                Some(Ok(_)) => v.plan() == StepView::<VoteQuestion>::Respond(plain(Status::Success, BodyView::Empty)),
                Some(Err(e)) => v.plan() == StepView::<VoteQuestion>::Respond(
                    plain(Status::InternalServerError, BodyView::Text(e@)),
                ),
            },
        }),
{
}

/// A post's page is shown (302) once the post and its poster are found;
/// either failing is answered 404 with its reason.
pub proof fn post_page_answers(p: PostPage)
    ensures
        p.post matches Some(Err(x)) ==> p.plan() == StepView::<PostPageQuestion>::Respond(plain(Status::NotFound, BodyView::Text(x@))),
        p.post matches Some(Ok(poster_id)) ==> (match p.poster {
            None => p.plan() == StepView::<PostPageQuestion>::Ask(PostPageQuestion::FetchPoster { poster_id }),
            Some(Err(x)) => p.plan() == StepView::<PostPageQuestion>::Respond(plain(Status::NotFound, BodyView::Text(x@))),
            Some(Ok(_)) => p.plan() == StepView::<PostPageQuestion>::Respond(plain(Status::Found, BodyView::Page)),
        }),
{
}

/// How many of the fetched posters were found.
pub open spec fn found_count(posters: Seq<Option<User>>) -> nat
    decreases posters.len(),
{
    if posters.len() == 0 {
        0
    } else {
        found_count(posters.drop_last()) + if posters.last() is Some { 1nat } else { 0nat }
    }
}

proof fn lemma_found_count_prefix(posters: Seq<Option<User>>, i: int)
    requires
        0 <= i < posters.len(),
    ensures
        found_count(posters.take(i + 1)) == found_count(posters.take(i)) + if posters[i] is Some { 1nat } else { 0nat },
{
    assert(posters.take(i + 1).drop_last() =~= posters.take(i));
    assert(posters.take(i + 1).last() == posters[i]);
}

/// The replies shown are exactly those whose poster was found, in their
/// order, whatever the viewer's vote on them: there are as many as posters
/// found, and the reply at index `i` with a found poster is shown at the place
/// given by the found posters before it, with its id, time and text, its
/// poster and the viewer's vote on it.
pub proof fn shown_replies_are_the_found_ones(replies: Seq<Reply>, posters: Seq<Option<User>>, statuses: Seq<Option<bool>>)
    requires
        posters.len() == replies.len(),
        statuses.len() == replies.len(),
    ensures
        shown_replies(replies, posters, statuses).len() == found_count(posters),
        forall|i: int| 0 <= i < replies.len() && (#[trigger] posters[i]) is Some ==>
            shown_replies(replies, posters, statuses)[found_count(posters.take(i)) as int] == (ReplyData {
                id: replies[i].id,
                created_at: replies[i].created_at,
                poster_data: posters[i]->Some_0,
                text: replies[i].text,
                status: statuses[i],
            }),
    decreases replies.len(),
{
    if replies.len() > 0 {
        let n = replies.len() - 1;
        let rs = replies.drop_last();
        let ps = posters.drop_last();
        let ss = statuses.drop_last();
        shown_replies_are_the_found_ones(rs, ps, ss);
        let earlier = shown_replies(rs, ps, ss);
        let shown = shown_replies(replies, posters, statuses);
        assert forall|i: int| 0 <= i < replies.len() && (#[trigger] posters[i]) is Some implies
            shown[found_count(posters.take(i)) as int] == (ReplyData {
                id: replies[i].id,
                created_at: replies[i].created_at,
                poster_data: posters[i]->Some_0,
                text: replies[i].text,
                status: statuses[i],
            }) by {
            if i < n {
                assert(posters.take(i) =~= ps.take(i));
                assert(ps[i] == posters[i]);
                assert(rs[i] == replies[i]);
                assert(ss[i] == statuses[i]);
                lemma_found_count_prefix(ps, i);
                lemma_found_count_prefix_bound(ps, i + 1);
                assert(shown[found_count(posters.take(i)) as int] == earlier[found_count(ps.take(i)) as int]);
            } else {
                assert(posters.take(i) =~= ps);
            }
        }
    }
}

proof fn lemma_found_count_prefix_bound(posters: Seq<Option<User>>, k: int)
    requires
        0 <= k <= posters.len(),
    ensures
        found_count(posters.take(k)) <= found_count(posters),
    decreases posters.len() - k,
{
    if k < posters.len() {
        lemma_found_count_prefix(posters, k);
        lemma_found_count_prefix_bound(posters, k + 1);
    } else {
        assert(posters.take(k) =~= posters);
    }
}

} // verus!
