use vstd::prelude::*;

use crate::handlers::clock::Timestamp;
use crate::handlers::numbers::{parse_u32_or_zero, str_opt_view, u32_or_zero};
use crate::handlers::response::{
    board_path, is_yes, located, page_window, plain, text_response,
    to_board, yes, Body, BodyView, IdentityChange, PageWindow, Response, Status, Step, StepView,
};

verus! {

/// A board, as the `boards` table holds it.
#[derive(Debug, PartialEq, Eq)]
pub struct Board {
    pub id: u32,
    pub owner_id: u32,
    pub name: String,
    pub description: String,
    pub created_at: Timestamp,
    pub icon: String,
}

/// The form that creates a board.
#[derive(Debug, PartialEq, Eq)]
pub struct NewBoardData {
    pub name: String,
    pub desc: String,
}

/// The query of a board's page.
#[derive(Debug, PartialEq, Eq)]
pub struct BoardQuery {
    pub page: Option<u32>,
}

/// The query of a board's posts as JSON.
#[derive(Debug, PartialEq, Eq)]
pub struct GetPostsQuery {
    pub limit: u32,
    pub offset: u32,
}

/// How many posts a board's page shows.
pub const POSTS_PER_PAGE: u32 = 10;

// ---------------------------------------------------------------------------
// Creating a board

/// The questions that creating a board asks.
#[derive(Clone, Copy, Debug, PartialEq, Eq)]
pub enum NewBoardQuestion {
    /// Is there a board with the form's name? (`Ok(true)` when there is)
    FindBoardsNamed,
    /// Insert the board, owned by the user.
    CreateBoard,
    /// Make the owner a member of the new board; the outcome is not looked at.
    JoinOwner,
}

/// A request to create a board, with what the store answered so far.
#[derive(Debug, PartialEq, Eq)]
pub struct NewBoard {
    pub user_id: u32,
    pub form: NewBoardData,
    pub name_taken: Option<Result<bool, String>>,
    pub created: Option<Result<(), String>>,
    pub owner_joined: Option<Result<(), String>>,
}

/// Starts the creation of a board by user `user_id` from the form.
pub fn newboard(user_id: u32, form: NewBoardData) -> (s: NewBoard)
    ensures
        s.user_id == user_id,
        s.form == form,
        s.name_taken is None,
        s.created is None,
        s.owner_joined is None,
{
    NewBoard { user_id, form, name_taken: None, created: None, owner_joined: None }
}

impl NewBoard {
    /// A board is created under a name that no board has; the owner then joins
    /// it, and the client is sent to it with its name. A taken name, or a
    /// failure of the store, is answered 422 with the reason.
    pub open spec fn plan(&self) -> StepView<NewBoardQuestion> {
        match self.name_taken {
            None => StepView::Ask(NewBoardQuestion::FindBoardsNamed),
            Some(Err(e)) => StepView::Respond(plain(Status::UnprocessableEntity, BodyView::Text(e@))),
            Some(Ok(true)) => StepView::Respond(plain(
                Status::UnprocessableEntity,
                BodyView::Text("Board already exists, try another name"@),
            )),
            Some(Ok(false)) => match self.created {
                None => StepView::Ask(NewBoardQuestion::CreateBoard),
                Some(Err(e)) => StepView::Respond(plain(Status::UnprocessableEntity, BodyView::Text(e@))),
                Some(Ok(())) => match self.owner_joined {
                    None => StepView::Ask(NewBoardQuestion::JoinOwner),
                    Some(_) => StepView::Respond(located(
                        Status::Found,
                        board_path(self.form.name@),
                        BodyView::JsonText(self.form.name@),
                    )),
                },
            },
        }
    }

    pub fn next(&self) -> (s: Step<NewBoardQuestion>)
        ensures
            s@ == self.plan(),
    {
        match &self.name_taken {
            None => Step::Ask(NewBoardQuestion::FindBoardsNamed),
            Some(Err(e)) => Step::Respond(text_response(Status::UnprocessableEntity, e.as_str())),
            Some(Ok(true)) => Step::Respond(
                text_response(Status::UnprocessableEntity, "Board already exists, try another name"),
            ),
            Some(Ok(false)) => match &self.created {
                None => Step::Ask(NewBoardQuestion::CreateBoard),
                Some(Err(e)) => Step::Respond(text_response(Status::UnprocessableEntity, e.as_str())),
                Some(Ok(())) => match &self.owner_joined {
                    None => Step::Ask(NewBoardQuestion::JoinOwner),
                    Some(_) => {
                        let name = self.form.name.as_str();
                        Step::Respond(to_board(Status::Found, name, Body::JsonText(name.to_owned())))
                    },
                },
            },
        }
    }
}

// ---------------------------------------------------------------------------
// Joining a board

#[derive(Clone, Copy, Debug, PartialEq, Eq)]
pub enum JoinBoardQuestion {
    /// Does the board exist?
    LookupBoard,
    /// Does the user own the board?
    CheckOwner,
    /// Is the user a member of the board?
    CheckMember,
    /// Make the user a member.
    Join,
}

/// A user's request to join a board, with what the store answered so far.
#[derive(Debug, PartialEq, Eq)]
pub struct JoinBoard {
    pub user_id: u32,
    pub board: String,
    pub board_found: Option<bool>,
    pub owner: Option<Result<bool, String>>,
    pub member: Option<Result<bool, String>>,
    pub joined: Option<Result<(), String>>,
}

/// Starts user `user_id`'s request to join the board named in the path (none names the board "").
pub fn join_board(user_id: u32, board: Option<&str>) -> (s: JoinBoard)
    ensures
        s.user_id == user_id,
        s.board@ == board_param(str_opt_view(board)),
        s.board_found is None,
        s.owner is None,
        s.member is None,
        s.joined is None,
{
    JoinBoard { user_id, board: path_param(board), board_found: None, owner: None, member: None, joined: None }
}

impl JoinBoard {
    /// A user joins a board that exists, that they do not own and that they are
    /// not yet in; a failed check of ownership or membership counts as no.
    pub open spec fn plan(&self) -> StepView<JoinBoardQuestion> {
        match self.board_found {
            None => StepView::Ask(JoinBoardQuestion::LookupBoard),
            Some(false) => StepView::Respond(plain(Status::NotFound, BodyView::Text("Board doesn't exist"@))),
            Some(true) => match self.owner {
                None => StepView::Ask(JoinBoardQuestion::CheckOwner),
                Some(o) => if yes(o) {
                    StepView::Respond(plain(Status::Unauthorized, BodyView::Text("Owner can't join own board"@)))
                } else {
                    match self.member {
                        None => StepView::Ask(JoinBoardQuestion::CheckMember),
                        Some(m) => if yes(m) {
                            StepView::Respond(located(
                                Status::Found,
                                board_path(self.board@),
                                BodyView::Text("User is already in server"@),
                            ))
                        } else {
                            match self.joined {
                                None => StepView::Ask(JoinBoardQuestion::Join),
                                Some(Err(_)) => StepView::Respond(
                                    plain(Status::InternalServerError, BodyView::Text("Failed to join"@)),
                                ),
                                Some(Ok(())) => StepView::Respond(
                                    located(Status::Found, board_path(self.board@), BodyView::Empty),
                                ),
                            }
                        },
                    }
                },
            },
        }
    }

    pub fn next(&self) -> (s: Step<JoinBoardQuestion>)
        ensures
            s@ == self.plan(),
    {
        match self.board_found {
            None => return Step::Ask(JoinBoardQuestion::LookupBoard),
            Some(false) => return Step::Respond(text_response(Status::NotFound, "Board doesn't exist")),
            Some(true) => {},
        }
        match &self.owner {
            None => return Step::Ask(JoinBoardQuestion::CheckOwner),
            Some(o) => if is_yes(o) {
                return Step::Respond(text_response(Status::Unauthorized, "Owner can't join own board"));
            },
        }
        match &self.member {
            None => return Step::Ask(JoinBoardQuestion::CheckMember),
            Some(m) => if is_yes(m) {
                return Step::Respond(
                    to_board(Status::Found, self.board.as_str(), Body::Text("User is already in server".to_owned())),
                );
            },
        }
        match &self.joined {
            None => Step::Ask(JoinBoardQuestion::Join),
            Some(Err(_)) => Step::Respond(text_response(Status::InternalServerError, "Failed to join")),
            Some(Ok(())) => Step::Respond(to_board(Status::Found, self.board.as_str(), Body::Empty)),
        }
    }
}

/// A board named in a request's path, or "" where the path names none.
pub open spec fn board_param(name: Option<Seq<char>>) -> Seq<char> {
    match name {
        Some(n) => n,
        None => Seq::empty(),
    }
}

/// The text of an optional path parameter, or "" where there is none.
pub fn path_param(name: Option<&str>) -> (s: String)
    ensures
        s@ == board_param(str_opt_view(name)),
{
    match name {
        Some(n) => n.to_owned(),
        None => String::new(),
    }
}

// ---------------------------------------------------------------------------
// Leaving a board

#[derive(Clone, Copy, Debug, PartialEq, Eq)]
pub enum LeaveBoardQuestion {
    /// Does the user own the board?
    CheckOwner,
    /// Does the board exist?
    LookupBoard,
    /// Remove the user from the board's members.
    Leave,
}

/// A user's request to leave a board, with what the store answered so far.
#[derive(Debug, PartialEq, Eq)]
pub struct LeaveBoard {
    pub user_id: u32,
    pub board: String,
    pub owner: Option<Result<bool, String>>,
    pub board_found: Option<bool>,
    pub left: Option<Result<(), String>>,
}

/// Starts user `user_id`'s request to leave the board named in the path (none names the board "").
pub fn leave_board(user_id: u32, board: Option<&str>) -> (s: LeaveBoard)
    ensures
        s.user_id == user_id,
        s.board@ == board_param(str_opt_view(board)),
        s.owner is None,
        s.board_found is None,
        s.left is None,
{
    LeaveBoard { user_id, board: path_param(board), owner: None, board_found: None, left: None }
}

impl LeaveBoard {
    /// The owner cannot leave their board; anyone else leaves an existing board.
    pub open spec fn plan(&self) -> StepView<LeaveBoardQuestion> {
        match self.owner {
            None => StepView::Ask(LeaveBoardQuestion::CheckOwner),
            Some(o) => if yes(o) {
                StepView::Respond(plain(Status::Unauthorized, BodyView::Text("Owner can't leave"@)))
            } else {
                match self.board_found {
                    None => StepView::Ask(LeaveBoardQuestion::LookupBoard),
                    Some(false) => StepView::Respond(plain(Status::NotFound, BodyView::Text("Board doesn't exist"@))),
                    Some(true) => match self.left {
                        None => StepView::Ask(LeaveBoardQuestion::Leave),
                        Some(Ok(())) => StepView::Respond(located(Status::Found, board_path(self.board@), BodyView::Empty)),
                        Some(Err(_)) => StepView::Respond(plain(Status::NotFound, BodyView::Text("Failed to leave board"@))),
                    },
                }
            },
        }
    }

    pub fn next(&self) -> (s: Step<LeaveBoardQuestion>)
        ensures
            s@ == self.plan(),
    {
        match &self.owner {
            None => return Step::Ask(LeaveBoardQuestion::CheckOwner),
            Some(o) => if is_yes(o) {
                return Step::Respond(text_response(Status::Unauthorized, "Owner can't leave"));
            },
        }
        match self.board_found {
            None => return Step::Ask(LeaveBoardQuestion::LookupBoard),
            Some(false) => return Step::Respond(text_response(Status::NotFound, "Board doesn't exist")),
            Some(true) => {},
        }
        match &self.left {
            None => Step::Ask(LeaveBoardQuestion::Leave),
            Some(Ok(())) => Step::Respond(to_board(Status::Found, self.board.as_str(), Body::Empty)),
            Some(Err(_)) => Step::Respond(text_response(Status::NotFound, "Failed to leave board")),
        }
    }
}

// ---------------------------------------------------------------------------
// Deleting a board

#[derive(Clone, Copy, Debug, PartialEq, Eq)]
pub enum DeleteBoardQuestion {
    /// Does the user own the board?
    CheckOwner,
    /// Does the board exist?
    LookupBoard,
    /// Delete the board.
    Delete,
}

/// A user's request to delete a board, with what the store answered so far.
#[derive(Debug, PartialEq, Eq)]
pub struct DeleteBoard {
    pub user_id: u32,
    pub board: String,
    pub owner: Option<Result<bool, String>>,
    pub board_found: Option<bool>,
    pub deleted: Option<Result<(), String>>,
}

/// "Failed to delete board: " and the store's reason.
pub open spec fn delete_failure(reason: Seq<char>) -> Seq<char> {
    "Failed to delete board: "@ + reason
}

/// Starts user `user_id`'s request to delete the board named in the path (none names the board "").
pub fn delete_board(user_id: u32, board: Option<&str>) -> (s: DeleteBoard)
    ensures
        s.user_id == user_id,
        s.board@ == board_param(str_opt_view(board)),
        s.owner is None,
        s.board_found is None,
        s.deleted is None,
{
    DeleteBoard { user_id, board: path_param(board), owner: None, board_found: None, deleted: None }
}

impl DeleteBoard {
    /// Only the owner deletes a board, and only one that exists; the client is
    /// then sent home.
    pub open spec fn plan(&self) -> StepView<DeleteBoardQuestion> {
        match self.owner {
            None => StepView::Ask(DeleteBoardQuestion::CheckOwner),
            Some(o) => if !yes(o) {
                StepView::Respond(plain(Status::Unauthorized, BodyView::Text("User can not delete board"@)))
            } else {
                match self.board_found {
                    None => StepView::Ask(DeleteBoardQuestion::LookupBoard),
                    Some(false) => StepView::Respond(plain(Status::NotFound, BodyView::Text("Board doesn't exist"@))),
                    Some(true) => match self.deleted {
                        None => StepView::Ask(DeleteBoardQuestion::Delete),
                        Some(Err(e)) => StepView::Respond(plain(Status::NotFound, BodyView::Text(delete_failure(e@)))),
                        Some(Ok(())) => StepView::Respond(located(Status::Found, "/"@, BodyView::Empty)),
                    },
                }
            },
        }
    }

    pub fn next(&self) -> (s: Step<DeleteBoardQuestion>)
        ensures
            s@ == self.plan(),
    {
        match &self.owner {
            None => return Step::Ask(DeleteBoardQuestion::CheckOwner),
            Some(o) => if !is_yes(o) {
                return Step::Respond(text_response(Status::Unauthorized, "User can not delete board"));
            },
        }
        match self.board_found {
            None => return Step::Ask(DeleteBoardQuestion::LookupBoard),
            Some(false) => return Step::Respond(text_response(Status::NotFound, "Board doesn't exist")),
            Some(true) => {},
        }
        match &self.deleted {
            None => Step::Ask(DeleteBoardQuestion::Delete),
            Some(Err(e)) => {
                let mut text = "Failed to delete board: ".to_owned();
                text.append(e.as_str());
                Step::Respond(Response { status: Status::NotFound, location: None, body: Body::Text(text), identity: IdentityChange::Keep })
            },
            Some(Ok(())) => Step::Respond(Response {
                status: Status::Found,
                location: Some("/".to_owned()),
                body: Body::Empty,
                identity: IdentityChange::Keep,
            }),
        }
    }
}

// ---------------------------------------------------------------------------
// Listing a board's posts

/// The window of `get_n_posts`: `limit` posts of page `offset`.
pub fn posts_window(limit: u32, offset: u32) -> (w: Option<PageWindow>)
    ensures
        w is Some <==> limit * offset <= u32::MAX,
        w matches Some(x) ==> x.limit == limit && x.offset == limit * offset,
{
    page_window(limit, offset)
}

/// The answer of `get_posts`: the posts found, as JSON, with status 302.
pub fn get_posts() -> (r: Response)
    ensures
        r@ == plain(Status::Found, BodyView::Data),
{
    Response { status: Status::Found, location: None, body: Body::Data, identity: IdentityChange::Keep }
}

// ---------------------------------------------------------------------------
// A board's page

/// What a board's page needs fetched: the viewer, from the identity (0 where
/// there is none or it is no number), and the window of posts of the page
/// asked for (page 0 where none is).
#[derive(Debug, PartialEq, Eq)]
pub struct BoardPage {
    pub user_id: u32,
    pub board: String,
    pub posts: Option<PageWindow>,
}

pub open spec fn page_or_zero(q: BoardQuery) -> nat {
    match q.page {
        Some(p) => p as nat,
        None => 0,
    }
}

/// Plans the fetches of a board's page.
pub fn board_page(identity: Option<&str>, board: Option<&str>, q: &BoardQuery) -> (p: BoardPage)
    ensures
        p.user_id == u32_or_zero(str_opt_view(identity)),
        p.board@ == board_param(str_opt_view(board)),
        p.posts is Some <==> POSTS_PER_PAGE * page_or_zero(*q) <= u32::MAX,
        p.posts matches Some(w) ==> w.limit == POSTS_PER_PAGE && w.offset == POSTS_PER_PAGE * page_or_zero(*q),
{
    let page: u32 = match q.page {
        Some(p) => p,
        None => 0,
    };
    BoardPage { user_id: parse_u32_or_zero(identity), board: path_param(board), posts: page_window(POSTS_PER_PAGE, page) }
}

/// A board's page is shown, with status 302, where the board exists; otherwise 404.
pub fn board_pg(board_found: bool) -> (r: Response)
    ensures
        board_found ==> r@ == plain(Status::Found, BodyView::Page),
        !board_found ==> r@ == plain(Status::NotFound, BodyView::Text("Board doesn't exist"@)),
{
    if board_found {
        Response { status: Status::Found, location: None, body: Body::Page, identity: IdentityChange::Keep }
    } else {
        text_response(Status::NotFound, "Board doesn't exist")
    }
}

// ---------------------------------------------------------------------------
// A board's icon

/// What follows the last `.` of a file name, or the whole name where it has
/// none: the last piece of `split(".")`.
pub open spec fn extension(name: Seq<char>) -> Seq<char>
    decreases name.len(),
{
    if name.len() == 0 {
        Seq::empty()
    } else if name.last() == '.' {
        Seq::empty()
    } else {
        extension(name.drop_last()).push(name.last())
    }
}

/// The name under which a board's icon is stored: `{board}.{extension}`.
pub open spec fn icon_name(board: Seq<char>, file_name: Seq<char>) -> Seq<char> {
    board + "."@ + extension(file_name)
}

/// What saving an uploaded icon gives: for no uploaded field, "No  payload";
/// for a field without a file name, "Missing file name!"; otherwise the
/// name it is stored under.
pub open spec fn icon_upload_name(board: Seq<char>, upload: Option<Option<Seq<char>>>) -> Result<Seq<char>, Seq<char>> {
    match upload {
        None => Err("No  payload"@),
        Some(None) => Err("Missing file name!"@),
        Some(Some(f)) => Ok(icon_name(board, f)),
    }
}

pub open spec fn upload_view(upload: Option<Option<&str>>) -> Option<Option<Seq<char>>> {
    match upload {
        None => None,
        Some(f) => Some(str_opt_view(f)),
    }
}

pub open spec fn result_view(r: Result<String, String>) -> Result<Seq<char>, Seq<char>> {
    match r {
        Ok(s) => Ok(s@),
        Err(e) => Err(e@),
    }
}

/// The extension of a file name.
pub fn file_extension(name: &str) -> (ext: String)
    ensures
        ext@ == extension(name@),
{
    let mut ext = String::new();
    let ghost s = name@;
    for c in it: name.chars()
        invariant
            it.seq() == s,
            ext@ == extension(s.take(it.index() as int)),
    {
        let ghost i = it.index();
        proof {
            assert(s.take(i + 1).drop_last() =~= s.take(i));
            assert(s.take(i + 1).last() == c);
        }
        if c == '.' {
            ext = String::new();
        } else {
            ext.push(c);
        }
    }
    proof {
        assert(s.take(s.len() as int) =~= s);
    }
    ext
}

/// The stored name of an uploaded icon, from the first field of the upload
/// (`None` where the upload has no field) and that field's file name.
pub fn icon_file_name(board: &str, upload: Option<Option<&str>>) -> (r: Result<String, String>)
    ensures
        result_view(r) == icon_upload_name(board@, upload_view(upload)),
{
    match upload {
        None => Err("No  payload".to_owned()),
        Some(None) => Err("Missing file name!".to_owned()),
        Some(Some(f)) => {
            let mut name = board.to_owned();
            name.append(".");
            let ext = file_extension(f);
            name.append(ext.as_str());
            Ok(name)
        },
    }
}

/// Where an icon is written: `{data_dir}/{name}`.
pub fn icon_path(data_dir: &str, name: &str) -> (p: String)
    ensures
        p@ == data_dir@ + "/"@ + name@,
{
    let mut p = data_dir.to_owned();
    p.append("/");
    p.append(name);
    p
}

/// The address a stored icon is served at: `/data/{name}`.
pub open spec fn icon_url_of(name: Seq<char>) -> Seq<char> {
    "/data/"@ + name
}

/// The address that `set_icon` records for a stored icon.
pub fn icon_url(file_name: &str) -> (u: String)
    ensures
        u@ == icon_url_of(file_name@),
{
    let mut u = "/data/".to_owned();
    u.append(file_name);
    u
}

#[derive(Clone, Copy, Debug, PartialEq, Eq)]
pub enum NewIconQuestion {
    /// Does the user own the board?
    CheckOwner,
    /// Store the uploaded icon (see `icon_file_name`).
    SaveIcon,
    /// Record the stored icon's address (see `icon_url`); the outcome is not looked at.
    SetIcon,
}

/// A request to change a board's icon, with what was answered so far.
#[derive(Debug, PartialEq, Eq)]
pub struct NewIcon {
    pub user_id: u32,
    pub board: String,
    pub owner: Option<Result<bool, String>>,
    pub saved: Option<Result<String, String>>,
    pub icon_set: Option<Result<(), String>>,
}

/// Starts user `user_id`'s upload of an icon for the board named in the path (none names the board "").
pub fn new_icon(user_id: u32, board: Option<&str>) -> (s: NewIcon)
    ensures
        s.user_id == user_id,
        s.board@ == board_param(str_opt_view(board)),
        s.owner is None,
        s.saved is None,
        s.icon_set is None,
{
    NewIcon { user_id, board: path_param(board), owner: None, saved: None, icon_set: None }
}

impl NewIcon {
    /// Only the board's owner changes its icon; whatever happens, the client is
    /// sent back to the board with 303.
    pub open spec fn plan(&self) -> StepView<NewIconQuestion> {
        let done = StepView::Respond(located(Status::SeeOther, board_path(self.board@), BodyView::Empty));
        match self.owner {
            None => StepView::Ask(NewIconQuestion::CheckOwner),
            Some(Ok(true)) => match self.saved {
                None => StepView::Ask(NewIconQuestion::SaveIcon),
                Some(Ok(_)) => match self.icon_set {
                    None => StepView::Ask(NewIconQuestion::SetIcon),
                    Some(_) => done,
                },
                Some(Err(_)) => done,
            },
            Some(_) => done,
        }
    }

    pub fn next(&self) -> (s: Step<NewIconQuestion>)
        ensures
            s@ == self.plan(),
    {
        match &self.owner {
            None => Step::Ask(NewIconQuestion::CheckOwner),
            Some(Ok(true)) => match &self.saved {
                None => Step::Ask(NewIconQuestion::SaveIcon),
                Some(Ok(_)) => match &self.icon_set {
                    None => Step::Ask(NewIconQuestion::SetIcon),
                    Some(_) => Step::Respond(to_board(Status::SeeOther, self.board.as_str(), Body::Empty)),
                },
                Some(Err(_)) => Step::Respond(to_board(Status::SeeOther, self.board.as_str(), Body::Empty)),
            },
            Some(_) => Step::Respond(to_board(Status::SeeOther, self.board.as_str(), Body::Empty)),
        }
    }
}

// ---------------------------------------------------------------------------
// What the board handlers guarantee

/// Creating a board asks each question at most once, and creates a board only
/// under a name that the store reported free.
pub proof fn new_board_creates_only_free_names(s: NewBoard)
    ensures
        s.plan() == StepView::<NewBoardQuestion>::Ask(NewBoardQuestion::FindBoardsNamed) ==> s.name_taken is None,
        s.plan() == StepView::<NewBoardQuestion>::Ask(NewBoardQuestion::CreateBoard) ==> s.created is None
            && s.name_taken == Some(Ok::<bool, String>(false)),
        s.plan() == StepView::<NewBoardQuestion>::Ask(NewBoardQuestion::JoinOwner) ==> s.owner_joined is None
            && s.created matches Some(Ok(_)),
{
}

/// Joining asks each question at most once, and a user is added to a board
/// only where the board exists and the user neither owns it nor is in it.
pub proof fn join_board_only_when_eligible(s: JoinBoard)
    ensures
        s.plan() == StepView::<JoinBoardQuestion>::Ask(JoinBoardQuestion::LookupBoard) ==> s.board_found is None,
        s.plan() == StepView::<JoinBoardQuestion>::Ask(JoinBoardQuestion::CheckOwner) ==> s.owner is None,
        s.plan() == StepView::<JoinBoardQuestion>::Ask(JoinBoardQuestion::CheckMember) ==> s.member is None,
        s.plan() == StepView::<JoinBoardQuestion>::Ask(JoinBoardQuestion::Join) ==> {
            &&& s.joined is None
            &&& s.board_found == Some(true)
            &&& s.owner matches Some(o) && !yes(o)
            &&& s.member matches Some(m) && !yes(m)
        },
{
}

/// A user already in a board who asks to join it again is answered 302
/// "User is already in server", and is not added a second time.
pub proof fn joining_twice_changes_nothing(s: JoinBoard)
    requires
        s.board_found == Some(true),
        s.owner matches Some(o) && !yes(o),
        s.member == Some(Ok::<bool, String>(true)),
    ensures
        s.plan() == StepView::<JoinBoardQuestion>::Respond(
            located(Status::Found, board_path(s.board@), BodyView::Text("User is already in server"@)),
        ),
{
}

/// Leaving asks each question at most once, and removes a user from a board
/// only where the board exists and the user does not own it.
pub proof fn leave_board_only_when_eligible(s: LeaveBoard)
    ensures
        s.plan() == StepView::<LeaveBoardQuestion>::Ask(LeaveBoardQuestion::CheckOwner) ==> s.owner is None,
        s.plan() == StepView::<LeaveBoardQuestion>::Ask(LeaveBoardQuestion::LookupBoard) ==> s.board_found is None,
        s.plan() == StepView::<LeaveBoardQuestion>::Ask(LeaveBoardQuestion::Leave) ==> {
            &&& s.left is None
            &&& s.board_found == Some(true)
            &&& s.owner matches Some(o) && !yes(o)
        },
{
}

/// Deleting asks each question at most once, and deletes a board only for its
/// owner, and only one that exists.
pub proof fn delete_board_only_by_owner(s: DeleteBoard)
    ensures
        s.plan() == StepView::<DeleteBoardQuestion>::Ask(DeleteBoardQuestion::CheckOwner) ==> s.owner is None,
        s.plan() == StepView::<DeleteBoardQuestion>::Ask(DeleteBoardQuestion::LookupBoard) ==> s.board_found is None,
        s.plan() == StepView::<DeleteBoardQuestion>::Ask(DeleteBoardQuestion::Delete) ==> {
            &&& s.deleted is None
            &&& s.board_found == Some(true)
            &&& s.owner == Some(Ok::<bool, String>(true))
        },
{
}

/// Changing an icon asks each question at most once, stores an icon only for
/// the board's owner, and records it only once it is stored.
pub proof fn new_icon_only_by_owner(s: NewIcon)
    ensures
        s.plan() == StepView::<NewIconQuestion>::Ask(NewIconQuestion::CheckOwner) ==> s.owner is None,
        s.plan() == StepView::<NewIconQuestion>::Ask(NewIconQuestion::SaveIcon) ==> s.saved is None
            && s.owner == Some(Ok::<bool, String>(true)),
        s.plan() == StepView::<NewIconQuestion>::Ask(NewIconQuestion::SetIcon) ==> s.icon_set is None
            && s.owner == Some(Ok::<bool, String>(true)) && s.saved matches Some(Ok(_)),
{
}

// ---------------------------------------------------------------------------
// The answers of the board handlers, outcome by outcome

/// A board created under a free name is answered 302 to the new board, with
/// its name as JSON, whatever came of making the owner a member.
pub proof fn newboard_created_is_sent_to_the_board(s: NewBoard)
    requires
        s.name_taken == Some(Ok::<bool, String>(false)),
        s.created matches Some(Ok(_)),
        s.owner_joined is Some,
    ensures
        s.plan() == StepView::<NewBoardQuestion>::Respond(
            located(Status::Found, board_path(s.form.name@), BodyView::JsonText(s.form.name@)),
        ),
{
}

/// A name that a board already has is refused with 422, and nothing is created.
pub proof fn newboard_taken_name_is_refused(s: NewBoard)
    requires
        s.name_taken == Some(Ok::<bool, String>(true)),
    ensures
        s.plan() == StepView::<NewBoardQuestion>::Respond(
            plain(Status::UnprocessableEntity, BodyView::Text("Board already exists, try another name"@)),
        ),
{
}

/// A failure of the store, looking the name up or creating the board, is
/// answered 422 with its reason.
pub proof fn newboard_store_failure_is_reported(s: NewBoard, reason: String)
    requires
        s.name_taken == Some(Err::<bool, String>(reason))
            || (s.name_taken == Some(Ok::<bool, String>(false)) && s.created == Some(Err::<(), String>(reason))),
    ensures
        s.plan() == StepView::<NewBoardQuestion>::Respond(
            plain(Status::UnprocessableEntity, BodyView::Text(reason@)),
        ),
{
}

/// Creating a board answers 302 exactly when the name was free and the board
/// was created, and only after the owner was asked to join.
pub proof fn newboard_found_only_when_created(s: NewBoard)
    ensures
        s.plan() matches StepView::Respond(r) && r.status == Status::Found ==> {
            &&& s.name_taken == Some(Ok::<bool, String>(false))
            &&& s.created matches Some(Ok(_))
            &&& s.owner_joined is Some
        },
{
}

/// An existing board that the user neither owns nor is in is joined: the
/// join is asked for, and its outcome decides the answer (302 to the board
/// with no body, or 500 "Failed to join").
pub proof fn join_board_joins_eligible_users(s: JoinBoard, o: Result<bool, String>, m: Result<bool, String>)
    requires
        s.board_found == Some(true),
        s.owner == Some(o),
        !yes(o),
        s.member == Some(m),
        !yes(m),
    ensures
        s.joined is None ==> s.plan() == StepView::<JoinBoardQuestion>::Ask(JoinBoardQuestion::Join),
        s.joined matches Some(Ok(_)) ==> s.plan() == StepView::<JoinBoardQuestion>::Respond(
            located(Status::Found, board_path(s.board@), BodyView::Empty),
        ),
        s.joined matches Some(Err(_)) ==> s.plan() == StepView::<JoinBoardQuestion>::Respond(
            plain(Status::InternalServerError, BodyView::Text("Failed to join"@)),
        ),
{
}

/// A missing board is answered 404, and its owner cannot join it (401).
pub proof fn join_board_refusals(s: JoinBoard)
    ensures
        s.board_found == Some(false) ==> s.plan() == StepView::<JoinBoardQuestion>::Respond(
            plain(Status::NotFound, BodyView::Text("Board doesn't exist"@)),
        ),
        s.board_found == Some(true) && (s.owner matches Some(o) && yes(o)) ==> s.plan()
            == StepView::<JoinBoardQuestion>::Respond(
            plain(Status::Unauthorized, BodyView::Text("Owner can't join own board"@)),
        ),
{
}

/// An answer of 302 with no body comes only from a join that was made.
pub proof fn join_board_success_only_after_joining(s: JoinBoard)
    ensures
        s.plan() matches StepView::Respond(r) && r.body == BodyView::Empty ==> s.joined matches Some(Ok(_)),
{
}

/// Leaving: the owner is refused (401), a missing board is answered 404, and
/// anyone else leaves an existing board (302 to it, or 404 "Failed to leave
/// board" where the store fails).
pub proof fn leave_board_answers(s: LeaveBoard)
    ensures
        s.owner matches Some(o) && yes(o) ==> s.plan() == StepView::<LeaveBoardQuestion>::Respond(
            plain(Status::Unauthorized, BodyView::Text("Owner can't leave"@)),
        ),
        (s.owner matches Some(o) && !yes(o)) && s.board_found == Some(false) ==> s.plan()
            == StepView::<LeaveBoardQuestion>::Respond(plain(Status::NotFound, BodyView::Text("Board doesn't exist"@))),
        (s.owner matches Some(o) && !yes(o)) && s.board_found == Some(true) ==> (match s.left {
            None => s.plan() == StepView::<LeaveBoardQuestion>::Ask(LeaveBoardQuestion::Leave),
            Some(Ok(_)) => s.plan() == StepView::<LeaveBoardQuestion>::Respond(
                located(Status::Found, board_path(s.board@), BodyView::Empty),
            ),
            Some(Err(_)) => s.plan() == StepView::<LeaveBoardQuestion>::Respond(
                plain(Status::NotFound, BodyView::Text("Failed to leave board"@)),
            ),
        }),
{
}

/// Anyone but the board's owner (a failed check counts as not the owner) is
/// refused with 401 "User can not delete board".
pub proof fn delete_board_refuses_non_owners(s: DeleteBoard, o: Result<bool, String>)
    requires
        s.owner == Some(o),
        !yes(o),
    ensures
        s.plan() == StepView::<DeleteBoardQuestion>::Respond(
            plain(Status::Unauthorized, BodyView::Text("User can not delete board"@)),
        ),
{
}

/// For the owner of an existing board, the deletion is asked for, and its
/// outcome decides the answer: 302 home, or 404 with the store's reason.
pub proof fn delete_board_by_owner(s: DeleteBoard)
    requires
        s.owner == Some(Ok::<bool, String>(true)),
        s.board_found == Some(true),
    ensures
        match s.deleted {
            None => s.plan() == StepView::<DeleteBoardQuestion>::Ask(DeleteBoardQuestion::Delete),
            Some(Ok(_)) => s.plan() == StepView::<DeleteBoardQuestion>::Respond(
                located(Status::Found, "/"@, BodyView::Empty),
            ),
            Some(Err(e)) => s.plan() == StepView::<DeleteBoardQuestion>::Respond(
                plain(Status::NotFound, BodyView::Text(delete_failure(e@))),
            ),
        },
{
}

/// The answer of a deleted board (302 home) comes only from a deletion that
/// the owner asked for and the store made.
pub proof fn delete_board_success_only_after_deleting(s: DeleteBoard)
    ensures
        s.plan() matches StepView::Respond(r) && r.status == Status::Found ==> {
            &&& s.owner == Some(Ok::<bool, String>(true))
            &&& s.board_found == Some(true)
            &&& s.deleted matches Some(Ok(_))
        },
{
}

/// An icon is stored and recorded for the board's owner; every answer sends
/// the client back to the board with 303.
pub proof fn new_icon_answers(s: NewIcon)
    ensures
        s.plan() matches StepView::Respond(r) ==> r == located(Status::SeeOther, board_path(s.board@), BodyView::Empty),
        s.owner == Some(Ok::<bool, String>(true)) && s.saved is None ==> s.plan()
            == StepView::<NewIconQuestion>::Ask(NewIconQuestion::SaveIcon),
        s.owner == Some(Ok::<bool, String>(true)) && (s.saved matches Some(Ok(_))) && s.icon_set is None ==> s.plan()
            == StepView::<NewIconQuestion>::Ask(NewIconQuestion::SetIcon),
{
}

} // verus!
