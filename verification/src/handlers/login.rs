use vstd::prelude::*;

use crate::handlers::numbers::{decimal, decimal_string};
use crate::handlers::response::{
    plain, remembered, text_response, Body, BodyView, IdentityChange, IdentityView, Response, ResponseView,
    Status, Step, StepView,
};

verus! {

/// An error message for the client.
#[derive(Debug, PartialEq, Eq)]
pub struct Error {
    pub text: String,
}

/// The sign-up form.
#[derive(Debug, PartialEq, Eq)]
pub struct SignupData {
    pub username: String,
    pub email: String,
    pub password: String,
}

/// The login form.
#[derive(Debug, PartialEq, Eq)]
pub struct LoginData {
    pub email: String,
    pub password: String,
}

/// The query of the login page and of a login: where to go afterwards.
#[derive(Debug, PartialEq, Eq)]
pub struct LoginQuery {
    pub redirect: Option<String>,
}

/// Where the client goes after logging in: the query's target, or `/`.
pub open spec fn redirect_target(redirect: Option<String>) -> Seq<char> {
    match redirect {
        Some(r) => r@,
        None => "/"@,
    }
}

/// The target that the login page hands on.
pub fn login_pg(q: &LoginQuery) -> (path: String)
    ensures
        path@ == redirect_target(q.redirect),
{
    match &q.redirect {
        Some(r) => r.clone(),
        None => "/".to_owned(),
    }
}

/// "Error with hash " and the hasher's message.
pub open spec fn hash_error(message: Seq<char>) -> Seq<char> {
    "Error with hash "@ + message
}

fn hash_error_text(message: &str) -> (t: String)
    ensures
        t@ == hash_error(message@),
{
    let mut t = "Error with hash ".to_owned();
    t.append(message);
    t
}

/// A successful login or sign-up of user `id`: remember the id, send the client
/// to `location` with the id as JSON.
pub open spec fn signed_in(id: u32, location: Seq<char>) -> ResponseView {
    ResponseView {
        status: Status::Found,
        location: Some(location),
        body: BodyView::JsonNumber(id),
        identity: IdentityView::Remember(decimal(id as nat)),
    }
}

fn signed_in_response(id: u32, location: String) -> (r: Response)
    ensures
        r@ == signed_in(id, location@),
{
    Response {
        status: Status::Found,
        location: Some(location),
        body: Body::JsonNumber(id),
        identity: IdentityChange::Remember(decimal_string(id as u64)),
    }
}

// ---------------------------------------------------------------------------
// Signing up

#[derive(Clone, Copy, Debug, PartialEq, Eq)]
pub enum SignupQuestion {
    /// Is a user registered with the form's email? (`Ok(true)` when one is)
    FindUsersWithEmail,
    /// Hash the form's password with the secret key.
    HashPassword,
    /// Insert the user's row (see `Signup::user_row`); the answer is the new row's id.
    InsertUser,
    /// Read back the user with the new row's id; the answer is the user's id.
    FetchUser,
}

/// A sign-up, with what was answered so far.
#[derive(Debug, PartialEq, Eq)]
pub struct Signup {
    pub form: SignupData,
    pub email_taken: Option<Result<bool, String>>,
    pub hashed: Option<Result<String, String>>,
    pub inserted: Option<Result<u64, String>>,
    pub user: Option<Result<u32, String>>,
}

/// Starts a sign-up with the form.
pub fn signup(form: SignupData) -> (s: Signup)
    ensures
        s.form == form,
        s.email_taken is None,
        s.hashed is None,
        s.inserted is None,
        s.user is None,
{
    Signup { form, email_taken: None, hashed: None, inserted: None, user: None }
}

/// The row that a sign-up stores: the form's username and email, and as
/// password the hasher's answer for the form's password.
#[derive(Debug, PartialEq, Eq)]
pub struct UserRow {
    pub username: String,
    pub email: String,
    pub password: String,
}

impl Signup {
    /// The row to store, once the password is hashed: the form's username and
    /// email with the hash, never the form's password itself.
    pub open spec fn stored_row(&self) -> Option<(Seq<char>, Seq<char>, Seq<char>)> {
        match self.hashed {
            Some(Ok(h)) => Some((self.form.username@, self.form.email@, h@)),
            _ => None,
        }
    }

    /// The row to insert when the plan asks for it.
    pub fn user_row(&self) -> (row: Option<UserRow>)
        ensures
            match row {
                Some(r) => self.stored_row() == Some((r.username@, r.email@, r.password@)),
                None => self.stored_row() is None,
            },
    {
        match &self.hashed {
            Some(Ok(h)) => Some(UserRow {
                username: self.form.username.clone(),
                email: self.form.email.clone(),
                password: h.clone(),
            }),
            _ => None,
        }
    }

    /// An email registers once: a new user is stored with the hash of their
    /// password and logged in. Every failure is answered 401 with its reason.
    pub open spec fn plan(&self) -> StepView<SignupQuestion> {
        match self.email_taken {
            None => StepView::Ask(SignupQuestion::FindUsersWithEmail),
            Some(Err(e)) => StepView::Respond(plain(Status::Unauthorized, BodyView::Text(e@))),
            Some(Ok(true)) => StepView::Respond(plain(Status::Unauthorized, BodyView::Text("email already in use"@))),
            Some(Ok(false)) => match self.hashed {
                None => StepView::Ask(SignupQuestion::HashPassword),
                Some(Err(e)) => StepView::Respond(plain(Status::Unauthorized, BodyView::Text(hash_error(e@)))),
                Some(Ok(_)) => match self.inserted {
                    None => StepView::Ask(SignupQuestion::InsertUser),
                    Some(Err(e)) => StepView::Respond(plain(Status::Unauthorized, BodyView::Text(e@))),
                    Some(Ok(_)) => match self.user {
                        None => StepView::Ask(SignupQuestion::FetchUser),
                        Some(Err(e)) => StepView::Respond(plain(Status::Unauthorized, BodyView::Text(e@))),
                        Some(Ok(id)) => StepView::Respond(signed_in(id, "/"@)),
                    },
                },
            },
        }
    }

    pub fn next(&self) -> (s: Step<SignupQuestion>)
        ensures
            s@ == self.plan(),
    {
        match &self.email_taken {
            None => return Step::Ask(SignupQuestion::FindUsersWithEmail),
            Some(Err(e)) => return Step::Respond(text_response(Status::Unauthorized, e.as_str())),
            Some(Ok(true)) => return Step::Respond(text_response(Status::Unauthorized, "email already in use")),
            Some(Ok(false)) => {},
        }
        match &self.hashed {
            None => return Step::Ask(SignupQuestion::HashPassword),
            Some(Err(e)) => return Step::Respond(Response {
                status: Status::Unauthorized,
                location: None,
                body: Body::Text(hash_error_text(e.as_str())),
                identity: IdentityChange::Keep,
            }),
            Some(Ok(_)) => {},
        }
        match &self.inserted {
            None => return Step::Ask(SignupQuestion::InsertUser),
            Some(Err(e)) => return Step::Respond(text_response(Status::Unauthorized, e.as_str())),
            Some(Ok(_)) => {},
        }
        match &self.user {
            None => Step::Ask(SignupQuestion::FetchUser),
            Some(Err(e)) => Step::Respond(text_response(Status::Unauthorized, e.as_str())),
            Some(Ok(id)) => Step::Respond(signed_in_response(*id, "/".to_owned())),
        }
    }
}

// ---------------------------------------------------------------------------
// Logging in

#[derive(Clone, Copy, Debug, PartialEq, Eq)]
pub enum LoginQuestion {
    /// The id and stored password hash of the user with the form's email.
    FetchCredentials,
    /// Does the form's password match the stored hash (with the secret key)?
    VerifyPassword,
}

/// A login, with what was answered so far.
#[derive(Debug, PartialEq, Eq)]
pub struct Login {
    pub form: LoginData,
    pub query: LoginQuery,
    pub credentials: Option<Result<(u32, String), String>>,
    pub verified: Option<Result<bool, String>>,
}

/// Starts a login with the form and the query.
pub fn login(form: LoginData, query: LoginQuery) -> (s: Login)
    ensures
        s.form == form,
        s.query == query,
        s.credentials is None,
        s.verified is None,
{
    Login { form, query, credentials: None, verified: None }
}

impl Login {
    /// A user logs in with the password whose hash is stored for their email,
    /// and is sent where the query says (or home). Anything else is answered 401.
    pub open spec fn plan(&self) -> StepView<LoginQuestion> {
        match self.credentials {
            None => StepView::Ask(LoginQuestion::FetchCredentials),
            Some(Err(_)) => StepView::Respond(plain(Status::Unauthorized, BodyView::Text("User doesn't exist"@))),
            Some(Ok((id, _))) => match self.verified {
                None => StepView::Ask(LoginQuestion::VerifyPassword),
                Some(Err(e)) => StepView::Respond(plain(Status::Unauthorized, BodyView::Text(hash_error(e@)))),
                Some(Ok(false)) => StepView::Respond(plain(Status::Unauthorized, BodyView::Text("Wrong password"@))),
                Some(Ok(true)) => StepView::Respond(signed_in(id, redirect_target(self.query.redirect))),
            },
        }
    }

    pub fn next(&self) -> (s: Step<LoginQuestion>)
        ensures
            s@ == self.plan(),
    {
        match &self.credentials {
            None => Step::Ask(LoginQuestion::FetchCredentials),
            Some(Err(_)) => Step::Respond(text_response(Status::Unauthorized, "User doesn't exist")),
            Some(Ok((id, _))) => match &self.verified {
                None => Step::Ask(LoginQuestion::VerifyPassword),
                Some(Err(e)) => Step::Respond(Response {
                    status: Status::Unauthorized,
                    location: None,
                    body: Body::Text(hash_error_text(e.as_str())),
                    identity: IdentityChange::Keep,
                }),
                Some(Ok(false)) => Step::Respond(text_response(Status::Unauthorized, "Wrong password")),
                Some(Ok(true)) => Step::Respond(signed_in_response(*id, login_pg(&self.query))),
            },
        }
    }
}

/// Logging out forgets the identity and sends the client home.
pub fn logout() -> (r: Response)
    ensures
        r@ == (ResponseView {
            status: Status::Found,
            location: Some("/"@),
            body: BodyView::Empty,
            identity: IdentityView::Forget,
        }),
{
    Response { status: Status::Found, location: Some("/".to_owned()), body: Body::Empty, identity: IdentityChange::Forget }
}

// ---------------------------------------------------------------------------
// What signing up and logging in guarantee

/// A sign-up asks each question at most once; it stores a user only under an
/// email that no user has, and the row it stores holds the form's username and
/// email and, as password, the hasher's answer for the form's password (not
/// the password); it remembers exactly the id it read back.
pub proof fn signup_stores_only_new_emails(s: Signup)
    ensures
        s.plan() == StepView::<SignupQuestion>::Ask(SignupQuestion::FindUsersWithEmail) ==> s.email_taken is None,
        s.plan() == StepView::<SignupQuestion>::Ask(SignupQuestion::HashPassword) ==> s.hashed is None
            && s.email_taken == Some(Ok::<bool, String>(false)),
        s.plan() == StepView::<SignupQuestion>::Ask(SignupQuestion::InsertUser) ==> {
            &&& s.inserted is None
            &&& s.email_taken == Some(Ok::<bool, String>(false))
            &&& s.hashed matches Some(Ok(h))
            &&& s.stored_row() == Some((s.form.username@, s.form.email@, h@))
        },
        s.plan() == StepView::<SignupQuestion>::Ask(SignupQuestion::FetchUser) ==> s.user is None
            && s.inserted matches Some(Ok(_)),
        remembered(s.plan()) matches Some(t) ==> {
            &&& s.user matches Some(Ok(id)) && t == decimal(id as nat)
            &&& s.inserted matches Some(Ok(_))
        },
{
}

/// A login asks each question at most once, and remembers a user's id only
/// once their password was verified against the stored hash.
pub proof fn login_only_with_verified_password(s: Login)
    ensures
        s.plan() == StepView::<LoginQuestion>::Ask(LoginQuestion::FetchCredentials) ==> s.credentials is None,
        s.plan() == StepView::<LoginQuestion>::Ask(LoginQuestion::VerifyPassword) ==> s.verified is None
            && s.credentials matches Some(Ok(_)),
        remembered(s.plan()) matches Some(t) ==> {
            &&& s.credentials matches Some(Ok((id, _))) && t == decimal(id as nat)
            &&& s.verified == Some(Ok::<bool, String>(true))
        },
{
}

/// The identity that a login remembers gets its user past the login guard,
/// as that same user, wherever the id is above zero.
pub proof fn login_identity_passes_guard(s: Login, path: Seq<char>, method: Seq<char>)
    ensures
        remembered(s.plan()) matches Some(t) ==> (
            s.credentials matches Some(Ok((id, _))) && (id > 0 ==> crate::handlers::middleware::gate(Some(t), path, method)
                == crate::handlers::middleware::GateView::Pass(id))
        ),
{
    if let Some(Ok((id, _))) = s.credentials {
        crate::handlers::numbers::decimal_id_reads_back(id);
    }
}

/// The identity that a sign-up remembers gets the new user past the login
/// guard, as that same user, wherever the id is above zero.
pub proof fn signup_identity_passes_guard(s: Signup, path: Seq<char>, method: Seq<char>)
    ensures
        remembered(s.plan()) matches Some(t) ==> (
            s.user matches Some(Ok(id)) && (id > 0 ==> crate::handlers::middleware::gate(Some(t), path, method)
                == crate::handlers::middleware::GateView::Pass(id))
        ),
{
    if let Some(Ok(id)) = s.user {
        crate::handlers::numbers::decimal_id_reads_back(id);
    }
}

/// What a login answers once the hasher has judged the password against the
/// hash stored for the email: where it accepts, the user's id is remembered
/// and the client sent on with 302; where it refuses, 401 "Wrong password"
/// and nothing is remembered.
pub proof fn login_follows_the_hasher(s: Login, id: u32, hash: String)
    requires
        s.credentials == Some(Ok::<(u32, String), String>((id, hash))),
    ensures
        s.verified == Some(Ok::<bool, String>(true)) ==> s.plan() == StepView::<LoginQuestion>::Respond(
            signed_in(id, redirect_target(s.query.redirect)),
        ),
        s.verified == Some(Ok::<bool, String>(false)) ==> s.plan() == StepView::<LoginQuestion>::Respond(
            plain(Status::Unauthorized, BodyView::Text("Wrong password"@)),
        ),
{
}

/// Sign-up outcomes: an email in use is refused (401 "email already in
/// use"); a hashing failure is answered 401 "Error with hash " and the
/// reason; a store failure 401 with its reason; a user stored and read back
/// is logged in and sent home with their id.
pub proof fn signup_answers(s: Signup)
    ensures
        s.email_taken == Some(Ok::<bool, String>(true)) ==> s.plan() == StepView::<SignupQuestion>::Respond(
            plain(Status::Unauthorized, BodyView::Text("email already in use"@)),
        ),
        s.email_taken matches Some(Err(e)) ==> s.plan() == StepView::<SignupQuestion>::Respond(
            plain(Status::Unauthorized, BodyView::Text(e@)),
        ),
        s.email_taken == Some(Ok::<bool, String>(false)) ==> (match s.hashed {
            None => s.plan() == StepView::<SignupQuestion>::Ask(SignupQuestion::HashPassword),
            Some(Err(e)) => s.plan() == StepView::<SignupQuestion>::Respond(
                plain(Status::Unauthorized, BodyView::Text("Error with hash "@ + e@)),
            ),
            Some(Ok(_)) => match s.inserted {
                None => s.plan() == StepView::<SignupQuestion>::Ask(SignupQuestion::InsertUser),
                Some(Err(e)) => s.plan() == StepView::<SignupQuestion>::Respond(
                    plain(Status::Unauthorized, BodyView::Text(e@)),
                ),
                Some(Ok(_)) => match s.user {
                    None => s.plan() == StepView::<SignupQuestion>::Ask(SignupQuestion::FetchUser),
                    Some(Err(e)) => s.plan() == StepView::<SignupQuestion>::Respond(
                        plain(Status::Unauthorized, BodyView::Text(e@)),
                    ),
                    Some(Ok(id)) => s.plan() == StepView::<SignupQuestion>::Respond(ResponseView {
                        status: Status::Found,
                        location: Some("/"@),
                        body: BodyView::JsonNumber(id),
                        identity: IdentityView::Remember(decimal(id as nat)),
                    }),
                },
            },
        }),
{
}

/// Login outcomes: an email without a user is answered 401 "User doesn't
/// exist"; a hashing failure 401 "Error with hash " and the reason; a wrong
/// password 401 "Wrong password"; a right one remembers the user and sends
/// them to the query's target, or home.
pub proof fn login_answers(s: Login)
    ensures
        s.credentials matches Some(Err(_)) ==> s.plan() == StepView::<LoginQuestion>::Respond(
            plain(Status::Unauthorized, BodyView::Text("User doesn't exist"@)),
        ),
        s.credentials matches Some(Ok((id, _))) ==> (match s.verified {
            None => s.plan() == StepView::<LoginQuestion>::Ask(LoginQuestion::VerifyPassword),
            Some(Err(e)) => s.plan() == StepView::<LoginQuestion>::Respond(
                plain(Status::Unauthorized, BodyView::Text("Error with hash "@ + e@)),
            ),
            Some(Ok(false)) => s.plan() == StepView::<LoginQuestion>::Respond(
                plain(Status::Unauthorized, BodyView::Text("Wrong password"@)),
            ),
            Some(Ok(true)) => s.plan() == StepView::<LoginQuestion>::Respond(ResponseView {
                status: Status::Found,
                location: Some(match s.query.redirect {
                    Some(r) => r@,
                    None => "/"@,
                }),
                body: BodyView::JsonNumber(id),
                identity: IdentityView::Remember(decimal(id as nat)),
            }),
        }),
{
}

} // verus!
