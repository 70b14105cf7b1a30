use vstd::prelude::*;

use crate::handlers::clock::Timestamp;
use crate::handlers::numbers::{parse_u64_or_zero, str_opt_view, u64_or_zero};
use crate::handlers::response::{plain, text_response, Body, BodyView, IdentityChange, Response, Status};

verus! {

/// A user, as the `users` table holds them.
#[derive(Debug, PartialEq, Eq)]
pub struct User {
    pub id: u32,
    pub username: String,
    pub email: String,
    pub password: Vec<u8>,
    pub created_at: Timestamp,
    pub pfp: String,
    pub banner: String,
    pub bio: Option<String>,
}

/// Whose page is shown, and to whom: both ids are read from text, 0 where the
/// text is absent or no `u64`.
#[derive(Clone, Copy, Debug, PartialEq, Eq)]
pub struct UserPage {
    pub guest_id: u64,
    pub viewer_id: u64,
}

/// Plans a user's page from the id in the path and the viewer's identity.
pub fn user_page(guest: Option<&str>, identity: Option<&str>) -> (p: UserPage)
    ensures
        p.guest_id == u64_or_zero(str_opt_view(guest)),
        p.viewer_id == u64_or_zero(str_opt_view(identity)),
{
    UserPage { guest_id: parse_u64_or_zero(guest), viewer_id: parse_u64_or_zero(identity) }
}

/// A user's page is shown with 200 where the user exists, otherwise 404.
pub fn get(guest_found: bool) -> (r: Response)
    ensures
        guest_found ==> r@ == plain(Status::Success, BodyView::Page),
        !guest_found ==> r@ == plain(Status::NotFound, BodyView::Text("User doesn't exist"@)),
{
    if guest_found {
        Response { status: Status::Success, location: None, body: Body::Page, identity: IdentityChange::Keep }
    } else {
        text_response(Status::NotFound, "User doesn't exist")
    }
}

/// A user is in a board when the count of their memberships of it is not zero.
pub fn check_if_joined_board(membership_count: i64) -> (b: bool)
    ensures
        b == (membership_count != 0),
{
    membership_count != 0
}

/// A user owns a board when the count of boards of that name that they own is not zero.
pub fn check_if_owner(owned_count: i64) -> (b: bool)
    ensures
        b == (owned_count != 0),
{
    owned_count != 0
}

} // verus!
