use vstd::prelude::*;

use crate::handlers::clock::Timestamp;
use crate::handlers::numbers::str_opt_view;
use crate::handlers::post::{post_status, vote_of, Vote};
use crate::handlers::response::{opt_view, page_window, plain, text_response, Body, BodyView, IdentityChange, PageWindow, Response, Status, Step, StepView};
use crate::handlers::user::User;
use crate::handlers::utils::{escape_html, sanitize_html};
use crate::handlers::board::{board_param, path_param};

verus! {

/// The reply form.
#[derive(Debug, PartialEq, Eq)]
pub struct NewReplyData {
    pub text: String,
}

/// A reply, as the `replies` table holds it.
#[derive(Debug, PartialEq, Eq)]
pub struct Reply {
    pub id: u32,
    pub created_at: Timestamp,
    pub poster_id: u32,
    pub parent_id: u32,
    pub text: String,
}

/// A reply as a post's page shows it: with its poster and the viewer's vote.
#[derive(Debug, PartialEq, Eq)]
pub struct ReplyData {
    pub id: u32,
    pub created_at: Timestamp,
    pub poster_data: User,
    pub text: String,
    pub status: Option<bool>,
}

#[derive(Clone, Copy, Debug, PartialEq, Eq)]
pub enum NewReplyQuestion {
    /// Insert the reply (see `NewReply::stored_text`) under the parent named in
    /// the path; the answer is the new row's id.
    InsertReply,
}

/// A new reply, with what was answered so far. The parent is the path's text
/// as it stands ("" where the path names none).
#[derive(Debug, PartialEq, Eq)]
pub struct NewReply {
    pub user_id: u32,
    pub parent: String,
    pub form: NewReplyData,
    pub inserted: Option<Result<u64, String>>,
}

/// Starts user `user_id`'s reply to the post named in the path.
pub fn new_reply(user_id: u32, parent: Option<&str>, form: NewReplyData) -> (s: NewReply)
    ensures
        s.user_id == user_id,
        s.parent@ == board_param(str_opt_view(parent)),
        s.form == form,
        s.inserted is None,
{
    NewReply { user_id, parent: path_param(parent), form, inserted: None }
}

impl NewReply {
    /// The text that is stored: the form's text with angle brackets escaped.
    pub fn stored_text(&self) -> (t: String)
        ensures
            t@ == escape_html(self.form.text@),
    {
        sanitize_html(self.form.text.as_str())
    }

    /// A reply is stored and its id (the row id cut to 32 bits) sent back with
    /// 200; a failure is answered 422 with its reason.
    pub open spec fn plan(&self) -> StepView<NewReplyQuestion> {
        match self.inserted {
            None => StepView::Ask(NewReplyQuestion::InsertReply),
            Some(Ok(id)) => StepView::Respond(plain(Status::Success, BodyView::JsonNumber(id as u32))),
            Some(Err(e)) => StepView::Respond(plain(Status::UnprocessableEntity, BodyView::Text(e@))),
        }
    }

    pub fn next(&self) -> (s: Step<NewReplyQuestion>)
        ensures
            s@ == self.plan(),
    {
        match &self.inserted {
            None => Step::Ask(NewReplyQuestion::InsertReply),
            Some(Ok(id)) => Step::Respond(Response {
                status: Status::Success,
                location: None,
                body: Body::JsonNumber(*id as u32),
                identity: IdentityChange::Keep,
            }),
            Some(Err(e)) => Step::Respond(text_response(Status::UnprocessableEntity, e.as_str())),
        }
    }
}

/// The window of `get_n_replies`: `limit` replies of page `offset`.
pub fn replies_window(limit: u32, offset: u32) -> (w: Option<PageWindow>)
    ensures
        w is Some <==> limit * offset <= u32::MAX,
        w matches Some(x) ==> x.limit == limit && x.offset == limit * offset,
{
    page_window(limit, offset)
}

/// The viewer's vote on a reply, from the stored `is_like` (none where there is no row).
pub fn reply_status(is_like: Option<i8>) -> (s: Option<bool>)
    ensures
        s == vote_of(is_like),
{
    post_status(is_like)
}

/// A like of the reply named in the path.
pub fn like_reply(user_id: u32, reply: Option<&str>) -> (v: Vote)
    ensures
        v.user_id == user_id,
        opt_view(v.target) == str_opt_view(reply),
        v.is_like,
        v.recorded is None,
{
    Vote::new(user_id, reply, true)
}

/// A dislike of the reply named in the path.
pub fn dislike_reply(user_id: u32, reply: Option<&str>) -> (v: Vote)
    ensures
        v.user_id == user_id,
        opt_view(v.target) == str_opt_view(reply),
        !v.is_like,
        v.recorded is None,
{
    Vote::new(user_id, reply, false)
}

/// A reply is stored at most once, and its stored text holds no angle bracket.
pub proof fn new_reply_stores_escaped_text(s: NewReply)
    ensures
        s.plan() == StepView::<NewReplyQuestion>::Ask(NewReplyQuestion::InsertReply) ==> s.inserted is None,
        crate::handlers::utils::bracket_free(escape_html(s.form.text@)),
{
    crate::handlers::utils::escaped_text_is_bracket_free(s.form.text@);
}

/// A stored reply is answered 200 with its id (the row id cut to 32 bits);
/// a failure 422 with the reason.
pub proof fn new_reply_answers(s: NewReply)
    ensures
        s.inserted matches Some(Ok(id)) ==> s.plan() == StepView::<NewReplyQuestion>::Respond(
            plain(Status::Success, BodyView::JsonNumber((id % 0x1_0000_0000) as u32)),
        ),
        s.inserted matches Some(Err(e)) ==> s.plan() == StepView::<NewReplyQuestion>::Respond(
            plain(Status::UnprocessableEntity, BodyView::Text(e@)),
        ),
{
    if let Some(Ok(id)) = s.inserted {
        assert((id as u32) == (id % 0x1_0000_0000) as u32) by (bit_vector);
    }
}

} // verus!
