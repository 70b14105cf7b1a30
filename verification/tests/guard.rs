use forum::handlers::middleware::{Gate, LoginAuth, LoginAuthMiddleware};
use forum::handlers::response::{Body, IdentityChange, Response, Status};

fn redirect(location: &str) -> Gate {
    Gate::Redirect(Response {
        status: Status::Found,
        location: Some(location.to_string()),
        body: Body::Text("Not logged in".to_string()),
        identity: IdentityChange::Keep,
    })
}

#[test]
fn logged_in_user_passes() {
    let m = LoginAuth.new_transform(());
    assert_eq!(m.call(Some("7"), "/boards/rust/join", "POST"), Gate::Pass(7));
}

#[test]
fn zero_id_is_redirected() {
    let m = LoginAuthMiddleware { service: 1u8 };
    assert_eq!(m.call(Some("0"), "/boards/rust", "POST"), redirect("/login?redirect=/boards/rust&method=POST"));
}

#[test]
fn garbage_identity_is_redirected() {
    let m = LoginAuthMiddleware { service: () };
    assert_eq!(m.call(Some("admin"), "/topics/3/like", "POST"), redirect("/login?redirect=/topics/3/like&method=POST"));
}

#[test]
fn anonymous_user_is_redirected() {
    let m = LoginAuthMiddleware { service: () };
    assert_eq!(m.call(None, "/boards", "GET"), redirect("/login?redirect=/boards&method=GET"));
}

#[test]
fn guard_keeps_service() {
    let m = LoginAuth.new_transform(41u32);
    assert_eq!(m.service, 41);
}
