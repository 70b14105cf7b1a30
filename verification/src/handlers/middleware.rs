use vstd::prelude::*;

use crate::handlers::numbers::{parse_u32_or_zero, str_opt_view, u32_or_zero};
use crate::handlers::response::{Body, IdentityChange, Response, ResponseView, Status, BodyView, IdentityView};

verus! {

/// The guard that lets only logged-in users reach the routes it wraps.
pub struct LoginAuth;

/// The guard around one service.
pub struct LoginAuthMiddleware<S> {
    pub service: S,
}

/// What the guard does with a request.
#[derive(Debug, PartialEq, Eq)]
pub enum Gate {
    /// Hand the request on, with this user id attached.
    Pass(u32),
    /// Answer at once, sending the client to the login page.
    Redirect(Response),
}

pub enum GateView {
    Pass(u32),
    Redirect(ResponseView),
}

impl View for Gate {
    type V = GateView;

    open spec fn view(&self) -> GateView {
        match self {
            Gate::Pass(id) => GateView::Pass(*id),
            Gate::Redirect(r) => GateView::Redirect(r@),
        }
    }
}

/// `/login?redirect={path}&method={method}`.
pub open spec fn login_location(path: Seq<char>, method: Seq<char>) -> Seq<char> {
    "/login?redirect="@ + path + "&method="@ + method
}

/// A request passes with the user id that its identity denotes when that id is
/// above zero; any other request is sent to the login page, which is told where
/// the client was going and with which method.
pub open spec fn gate(identity: Option<Seq<char>>, path: Seq<char>, method: Seq<char>) -> GateView {
    if u32_or_zero(identity) > 0 {
        GateView::Pass(u32_or_zero(identity) as u32)
    } else {
        GateView::Redirect(ResponseView {
            status: Status::Found,
            location: Some(login_location(path, method)),
            body: BodyView::Text("Not logged in"@),
            identity: IdentityView::Keep,
        })
    }
}

impl LoginAuth {
    /// Wraps `service` in the guard.
    pub fn new_transform<S>(&self, service: S) -> (m: LoginAuthMiddleware<S>)
        ensures
            m.service == service,
    {
        LoginAuthMiddleware { service }
    }
}

impl<S> LoginAuthMiddleware<S> {
    /// Decides whether the request with this identity, path and method passes.
    pub fn call(&self, identity: Option<&str>, path: &str, method: &str) -> (g: Gate)
        ensures
            g@ == gate(str_opt_view(identity), path@, method@),
    {
        let user_id = parse_u32_or_zero(identity);
        if user_id > 0 {
            Gate::Pass(user_id)
        } else {
            let mut location = "/login?redirect=".to_owned();
            location.append(path);
            location.append("&method=");
            location.append(method);
            Gate::Redirect(Response {
                status: Status::Found,
                location: Some(location),
                body: Body::Text("Not logged in".to_owned()),
                identity: IdentityChange::Keep,
            })
        }
    }
}

/// The guard lets a request through exactly when its identity denotes an id
/// above zero, and then with that id; every other request is redirected to
/// the login page with status 302.
pub proof fn gate_passes_exactly_positive_ids(identity: Option<Seq<char>>, path: Seq<char>, method: Seq<char>)
    ensures
        gate(identity, path, method) matches GateView::Pass(id) ==> id > 0 && id == u32_or_zero(identity),
        gate(identity, path, method) is Pass <==> u32_or_zero(identity) > 0,
        gate(identity, path, method) matches GateView::Redirect(r) ==> r.status == Status::Found
            && r.location == Some("/login?redirect="@ + path + "&method="@ + method)
            && r.body == BodyView::Text("Not logged in"@) && r.identity == IdentityView::Keep,
{
    crate::handlers::numbers::parse_unsigned_bounded(
        match identity { Some(t) => t, None => Seq::empty() },
        u32::MAX as nat,
    );
}

/// A request without an identity is always sent to log in.
pub proof fn anonymous_requests_are_redirected(path: Seq<char>, method: Seq<char>)
    ensures
        gate(None, path, method) is Redirect,
{
}

} // verus!
