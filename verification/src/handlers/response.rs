use vstd::prelude::*;

verus! {

/// The HTTP statuses that the forum answers with.
#[derive(Clone, Copy, Debug, PartialEq, Eq)]
pub enum Status {
    /// 200 OK
    Success,
    /// 302 Found
    Found,
    /// 303 See Other
    SeeOther,
    /// 401 Unauthorized
    Unauthorized,
    /// 403 Forbidden
    Forbidden,
    /// 404 Not Found
    NotFound,
    /// 422 Unprocessable Entity
    UnprocessableEntity,
    /// 500 Internal Server Error
    InternalServerError,
}

/// What the body of an answer holds.
#[derive(Debug, PartialEq, Eq)]
pub enum Body {
    /// No body.
    Empty,
    /// Plain text.
    Text(String),
    /// A number, sent as JSON.
    JsonNumber(u32),
    /// A text, sent as a JSON string.
    JsonText(String),
    /// The page that the handler renders from the data it gathered.
    Page,
    /// The rows that the handler gathered, sent as JSON.
    Data,
}

/// What an answer does to the login cookie.
#[derive(Debug, PartialEq, Eq)]
pub enum IdentityChange {
    /// Leave the identity as it is.
    Keep,
    /// Remember this identity for the client.
    Remember(String),
    /// Forget the client's identity.
    Forget,
}

/// An answer to a request: its status, the `location` header when there is one,
/// its body and what it does to the client's identity.
#[derive(Debug, PartialEq, Eq)]
pub struct Response {
    pub status: Status,
    pub location: Option<String>,
    pub body: Body,
    pub identity: IdentityChange,
}

/// The body of an answer, with its texts as sequences of characters.
pub enum BodyView {
    Empty,
    Text(Seq<char>),
    JsonNumber(u32),
    JsonText(Seq<char>),
    Page,
    Data,
}

/// What an answer does to the identity, with its text as a sequence of characters.
pub enum IdentityView {
    Keep,
    Remember(Seq<char>),
    Forget,
}

/// An answer, with its texts as sequences of characters.
pub struct ResponseView {
    pub status: Status,
    pub location: Option<Seq<char>>,
    pub body: BodyView,
    pub identity: IdentityView,
}

impl View for Body {
    type V = BodyView;

    open spec fn view(&self) -> BodyView {
        match self {
            Body::Empty => BodyView::Empty,
            Body::Text(t) => BodyView::Text(t@),
            Body::JsonNumber(n) => BodyView::JsonNumber(*n),
            Body::JsonText(t) => BodyView::JsonText(t@),
            Body::Page => BodyView::Page,
            Body::Data => BodyView::Data,
        }
    }
}

impl View for IdentityChange {
    type V = IdentityView;

    open spec fn view(&self) -> IdentityView {
        match self {
            IdentityChange::Keep => IdentityView::Keep,
            IdentityChange::Remember(t) => IdentityView::Remember(t@),
            IdentityChange::Forget => IdentityView::Forget,
        }
    }
}

pub open spec fn opt_view(o: Option<String>) -> Option<Seq<char>> {
    match o {
        Some(s) => Some(s@),
        None => None,
    }
}

impl View for Response {
    type V = ResponseView;

    open spec fn view(&self) -> ResponseView {
        ResponseView {
            status: self.status,
            location: opt_view(self.location),
            body: self.body@,
            identity: self.identity@,
        }
    }
}

/// An answer without a location header that leaves the identity alone.
pub open spec fn plain(status: Status, body: BodyView) -> ResponseView {
    ResponseView { status, location: None, body, identity: IdentityView::Keep }
}

/// An answer with a `location` header that leaves the identity alone.
pub open spec fn located(status: Status, location: Seq<char>, body: BodyView) -> ResponseView {
    ResponseView { status, location: Some(location), body, identity: IdentityView::Keep }
}

/// The path of a board's page.
pub open spec fn board_path(board: Seq<char>) -> Seq<char> {
    "/boards/"@ + board
}

pub fn text_response(status: Status, text: &str) -> (r: Response)
    ensures
        r@ == plain(status, BodyView::Text(text@)),
{
    Response { status, location: None, body: Body::Text(text.to_owned()), identity: IdentityChange::Keep }
}

pub fn empty_response(status: Status) -> (r: Response)
    ensures
        r@ == plain(status, BodyView::Empty),
{
    Response { status, location: None, body: Body::Empty, identity: IdentityChange::Keep }
}

/// `/boards/{board}`.
pub fn board_location(board: &str) -> (path: String)
    ensures
        path@ == board_path(board@),
{
    let mut path = "/boards/".to_owned();
    path.append(board);
    path
}

/// A redirection to a board's page.
pub fn to_board(status: Status, board: &str, body: Body) -> (r: Response)
    ensures
        r@ == located(status, board_path(board@), body@),
{
    Response { status, location: Some(board_location(board)), body, identity: IdentityChange::Keep }
}

/// The next thing a handler needs: the answer to a question `Q` about the
/// stored data (or a change to it), or nothing more, and then it answers.
#[derive(Debug, PartialEq, Eq)]
pub enum Step<Q> {
    Ask(Q),
    Respond(Response),
}

/// A step, with its answer's texts as sequences of characters.
pub enum StepView<Q> {
    Ask(Q),
    Respond(ResponseView),
}

impl<Q: Copy> View for Step<Q> {
    type V = StepView<Q>;

    open spec fn view(&self) -> StepView<Q> {
        match self {
            Step::Ask(q) => StepView::Ask(*q),
            Step::Respond(r) => StepView::Respond(r@),
        }
    }
}

/// The identity that a step's answer remembers, if it answers and remembers one.
pub open spec fn remembered<Q>(step: StepView<Q>) -> Option<Seq<char>> {
    match step {
        StepView::Respond(r) => match r.identity {
            IdentityView::Remember(t) => Some(t),
            _ => None,
        },
        StepView::Ask(_) => None,
    }
}

/// What `result.unwrap_or_default()` gives for a yes-or-no answer that may have
/// failed: a failure counts as no.
pub open spec fn yes(answer: Result<bool, String>) -> bool {
    match answer {
        Ok(b) => b,
        Err(_) => false,
    }
}

pub fn is_yes(answer: &Result<bool, String>) -> (b: bool)
    ensures
        b == yes(*answer),
{
    match answer {
        Ok(b) => *b,
        Err(_) => false,
    }
}

/// The rows a query found, or none where it failed: what
/// `rows.unwrap_or_default()` gives.
pub fn rows_or_empty<T>(rows: Result<Vec<T>, String>) -> (v: Vec<T>)
    ensures
        match rows {
            Ok(r) => v@ == r@,
            Err(_) => v@.len() == 0,
        },
{
    match rows {
        Ok(r) => r,
        Err(_) => Vec::new(),
    }
}

/// A window of rows: at most `limit` rows, after skipping `offset`.
#[derive(Clone, Copy, Debug, PartialEq, Eq)]
pub struct PageWindow {
    pub limit: u32,
    pub offset: u32,
}

/// The rows of page `page` (counted from zero) when each page holds `limit`
/// rows: the window skips `page * limit` rows. There is none where that count
/// does not fit in a `u32`.
pub fn page_window(limit: u32, page: u32) -> (w: Option<PageWindow>)
    ensures
        w is Some <==> limit * page <= u32::MAX,
        w matches Some(x) ==> x.limit == limit && x.offset == limit * page,
{
    assert((limit as u64) * (page as u64) <= u32::MAX as u64 * u32::MAX as u64) by (nonlinear_arith)
        requires limit <= u32::MAX, page <= u32::MAX;
    let product: u64 = (limit as u64) * (page as u64);
    if product <= u32::MAX as u64 {
        Some(PageWindow { limit, offset: product as u32 })
    } else {
        None
    }
}

} // verus!
