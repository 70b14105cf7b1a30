use forum::handlers::login::{
    login, login_pg, logout, signup, LoginData, LoginQuery, LoginQuestion, SignupData, SignupQuestion, UserRow,
};
use forum::handlers::middleware::{Gate, LoginAuthMiddleware};
use forum::handlers::response::{Body, IdentityChange, Response, Status, Step};
use forum::handlers::user::{check_if_joined_board, get, user_page, UserPage};

fn text(status: Status, t: &str) -> Response {
    Response { status, location: None, body: Body::Text(t.to_string()), identity: IdentityChange::Keep }
}

fn signup_form() -> SignupData {
    SignupData { username: "ann".to_string(), email: "ann@example.org".to_string(), password: "hunter2".to_string() }
}

fn login_form() -> LoginData {
    LoginData { email: "ann@example.org".to_string(), password: "hunter2".to_string() }
}

#[test]
fn login_page_redirect_target() {
    assert_eq!(login_pg(&LoginQuery { redirect: None }), "/");
    assert_eq!(login_pg(&LoginQuery { redirect: Some("/boards/rust".to_string()) }), "/boards/rust");
}

#[test]
fn signup_success() {
    let mut s = signup(signup_form());
    assert_eq!(s.next(), Step::Ask(SignupQuestion::FindUsersWithEmail));
    s.email_taken = Some(Ok(false));
    assert_eq!(s.next(), Step::Ask(SignupQuestion::HashPassword));
    s.hashed = Some(Ok("$argon2id$...".to_string()));
    assert_eq!(s.next(), Step::Ask(SignupQuestion::InsertUser));
    s.inserted = Some(Ok(17));
    assert_eq!(s.next(), Step::Ask(SignupQuestion::FetchUser));
    s.user = Some(Ok(17));
    assert_eq!(
        s.next(),
        Step::Respond(Response {
            status: Status::Found,
            location: Some("/".to_string()),
            body: Body::JsonNumber(17),
            identity: IdentityChange::Remember("17".to_string()),
        })
    );
}

#[test]
fn signup_refusals() {
    let mut s = signup(signup_form());
    s.email_taken = Some(Ok(true));
    assert_eq!(s.next(), Step::Respond(text(Status::Unauthorized, "email already in use")));
    s.email_taken = Some(Err("db down".to_string()));
    assert_eq!(s.next(), Step::Respond(text(Status::Unauthorized, "db down")));
    s.email_taken = Some(Ok(false));
    s.hashed = Some(Err("Secret key too short".to_string()));
    assert_eq!(s.next(), Step::Respond(text(Status::Unauthorized, "Error with hash Secret key too short")));
    s.hashed = Some(Ok("h".to_string()));
    s.inserted = Some(Err("dup".to_string()));
    assert_eq!(s.next(), Step::Respond(text(Status::Unauthorized, "dup")));
    s.inserted = Some(Ok(4));
    s.user = Some(Err("no row".to_string()));
    assert_eq!(s.next(), Step::Respond(text(Status::Unauthorized, "no row")));
}

#[test]
fn login_success_goes_to_redirect() {
    let mut s = login(login_form(), LoginQuery { redirect: Some("/boards/go".to_string()) });
    assert_eq!(s.next(), Step::Ask(LoginQuestion::FetchCredentials));
    s.credentials = Some(Ok((9, "$argon2id$...".to_string())));
    assert_eq!(s.next(), Step::Ask(LoginQuestion::VerifyPassword));
    s.verified = Some(Ok(true));
    assert_eq!(
        s.next(),
        Step::Respond(Response {
            status: Status::Found,
            location: Some("/boards/go".to_string()),
            body: Body::JsonNumber(9),
            identity: IdentityChange::Remember("9".to_string()),
        })
    );
}

#[test]
fn login_refusals() {
    let mut s = login(login_form(), LoginQuery { redirect: None });
    s.credentials = Some(Err("no rows".to_string()));
    assert_eq!(s.next(), Step::Respond(text(Status::Unauthorized, "User doesn't exist")));
    s.credentials = Some(Ok((9, "h".to_string())));
    s.verified = Some(Ok(false));
    assert_eq!(s.next(), Step::Respond(text(Status::Unauthorized, "Wrong password")));
    s.verified = Some(Err("Invalid hash".to_string()));
    assert_eq!(s.next(), Step::Respond(text(Status::Unauthorized, "Error with hash Invalid hash")));
}

#[test]
fn remembered_login_passes_the_guard() {
    let mut s = login(login_form(), LoginQuery { redirect: None });
    s.credentials = Some(Ok((4_000_000_000, "h".to_string())));
    s.verified = Some(Ok(true));
    let remembered = match s.next() {
        Step::Respond(Response { identity: IdentityChange::Remember(t), .. }) => t,
        other => panic!("unexpected {:?}", other),
    };
    let guard = LoginAuthMiddleware { service: () };
    assert_eq!(guard.call(Some(&remembered), "/", "GET"), Gate::Pass(4_000_000_000));
}

#[test]
fn logout_forgets_identity() {
    assert_eq!(
        logout(),
        Response { status: Status::Found, location: Some("/".to_string()), body: Body::Empty, identity: IdentityChange::Forget }
    );
}

#[test]
fn user_page_ids() {
    assert_eq!(user_page(Some("8"), Some("3")), UserPage { guest_id: 8, viewer_id: 3 });
    assert_eq!(user_page(Some("x"), None), UserPage { guest_id: 0, viewer_id: 0 });
    assert_eq!(user_page(Some("10000000000"), None), UserPage { guest_id: 10_000_000_000, viewer_id: 0 });
}

#[test]
fn user_get_answers() {
    assert_eq!(get(true), Response { status: Status::Success, location: None, body: Body::Page, identity: IdentityChange::Keep });
    assert_eq!(get(false), text(Status::NotFound, "User doesn't exist"));
}

#[test]
fn membership_from_count() {
    assert!(check_if_joined_board(1));
    assert!(check_if_joined_board(3));
    assert!(!check_if_joined_board(0));
}

#[test]
fn signup_stores_the_hash_not_the_password() {
    let mut s = signup(signup_form());
    assert_eq!(s.user_row(), None);
    s.email_taken = Some(Ok(false));
    s.hashed = Some(Err("bad key".to_string()));
    assert_eq!(s.user_row(), None);
    s.hashed = Some(Ok("$argon2id$v=19$abc".to_string()));
    assert_eq!(s.next(), Step::Ask(SignupQuestion::InsertUser));
    assert_eq!(
        s.user_row(),
        Some(UserRow {
            username: "ann".to_string(),
            email: "ann@example.org".to_string(),
            password: "$argon2id$v=19$abc".to_string(),
        })
    );
}
