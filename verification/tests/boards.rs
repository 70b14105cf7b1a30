use forum::handlers::board::{
    board_page, board_pg, delete_board, file_extension, get_posts, icon_file_name, icon_path, icon_url, join_board,
    leave_board, new_icon, newboard, path_param, posts_window, BoardQuery, DeleteBoardQuestion, JoinBoardQuestion,
    LeaveBoardQuestion, NewBoardData, NewBoardQuestion, NewIconQuestion,
};
use forum::handlers::response::{page_window, Body, IdentityChange, PageWindow, Response, Status, Step};

fn text(status: Status, t: &str) -> Response {
    Response { status, location: None, body: Body::Text(t.to_string()), identity: IdentityChange::Keep }
}

fn to(status: Status, location: &str, body: Body) -> Response {
    Response { status, location: Some(location.to_string()), body, identity: IdentityChange::Keep }
}

#[test]
fn new_board_created_and_joined() {
    let mut s = newboard(3, NewBoardData { name: "rust".to_string(), desc: "all things rust".to_string() });
    assert_eq!(s.next(), Step::Ask(NewBoardQuestion::FindBoardsNamed));
    s.name_taken = Some(Ok(false));
    assert_eq!(s.next(), Step::Ask(NewBoardQuestion::CreateBoard));
    s.created = Some(Ok(()));
    assert_eq!(s.next(), Step::Ask(NewBoardQuestion::JoinOwner));
    s.owner_joined = Some(Err("duplicate".to_string()));
    assert_eq!(s.next(), Step::Respond(to(Status::Found, "/boards/rust", Body::JsonText("rust".to_string()))));
}

#[test]
fn new_board_name_taken() {
    let mut s = newboard(3, NewBoardData { name: "rust".to_string(), desc: String::new() });
    s.name_taken = Some(Ok(true));
    assert_eq!(
        s.next(),
        Step::Respond(text(Status::UnprocessableEntity, "Board already exists, try another name"))
    );
}

#[test]
fn new_board_store_failures() {
    let mut s = newboard(3, NewBoardData { name: "rust".to_string(), desc: String::new() });
    s.name_taken = Some(Err("connection lost".to_string()));
    assert_eq!(s.next(), Step::Respond(text(Status::UnprocessableEntity, "connection lost")));
    s.name_taken = Some(Ok(false));
    s.created = Some(Err("too long".to_string()));
    assert_eq!(s.next(), Step::Respond(text(Status::UnprocessableEntity, "too long")));
}

#[test]
fn join_board_success() {
    let mut s = join_board(5, Some("rust"));
    assert_eq!(s.next(), Step::Ask(JoinBoardQuestion::LookupBoard));
    s.board_found = Some(true);
    assert_eq!(s.next(), Step::Ask(JoinBoardQuestion::CheckOwner));
    s.owner = Some(Ok(false));
    assert_eq!(s.next(), Step::Ask(JoinBoardQuestion::CheckMember));
    s.member = Some(Err("timeout".to_string()));
    assert_eq!(s.next(), Step::Ask(JoinBoardQuestion::Join));
    s.joined = Some(Ok(()));
    assert_eq!(s.next(), Step::Respond(to(Status::Found, "/boards/rust", Body::Empty)));
}

#[test]
fn join_board_refusals() {
    let mut s = join_board(5, Some("rust"));
    s.board_found = Some(false);
    assert_eq!(s.next(), Step::Respond(text(Status::NotFound, "Board doesn't exist")));
    s.board_found = Some(true);
    s.owner = Some(Ok(true));
    assert_eq!(s.next(), Step::Respond(text(Status::Unauthorized, "Owner can't join own board")));
    s.owner = Some(Err("down".to_string()));
    s.member = Some(Ok(true));
    assert_eq!(
        s.next(),
        Step::Respond(to(Status::Found, "/boards/rust", Body::Text("User is already in server".to_string())))
    );
    s.member = Some(Ok(false));
    s.joined = Some(Err("dup".to_string()));
    assert_eq!(s.next(), Step::Respond(text(Status::InternalServerError, "Failed to join")));
}

#[test]
fn join_board_without_name() {
    let s = join_board(5, None);
    assert_eq!(s.board, "");
    assert_eq!(path_param(Some("x")), "x");
}

#[test]
fn leave_board_flow() {
    let mut s = leave_board(2, Some("go"));
    assert_eq!(s.next(), Step::Ask(LeaveBoardQuestion::CheckOwner));
    s.owner = Some(Ok(true));
    assert_eq!(s.next(), Step::Respond(text(Status::Unauthorized, "Owner can't leave")));
    s.owner = Some(Ok(false));
    assert_eq!(s.next(), Step::Ask(LeaveBoardQuestion::LookupBoard));
    s.board_found = Some(false);
    assert_eq!(s.next(), Step::Respond(text(Status::NotFound, "Board doesn't exist")));
    s.board_found = Some(true);
    assert_eq!(s.next(), Step::Ask(LeaveBoardQuestion::Leave));
    s.left = Some(Err("x".to_string()));
    assert_eq!(s.next(), Step::Respond(text(Status::NotFound, "Failed to leave board")));
    s.left = Some(Ok(()));
    assert_eq!(s.next(), Step::Respond(to(Status::Found, "/boards/go", Body::Empty)));
}

#[test]
fn delete_board_flow() {
    let mut s = delete_board(2, Some("go"));
    assert_eq!(s.next(), Step::Ask(DeleteBoardQuestion::CheckOwner));
    s.owner = Some(Err("down".to_string()));
    assert_eq!(s.next(), Step::Respond(text(Status::Unauthorized, "User can not delete board")));
    s.owner = Some(Ok(true));
    assert_eq!(s.next(), Step::Ask(DeleteBoardQuestion::LookupBoard));
    s.board_found = Some(false);
    assert_eq!(s.next(), Step::Respond(text(Status::NotFound, "Board doesn't exist")));
    s.board_found = Some(true);
    assert_eq!(s.next(), Step::Ask(DeleteBoardQuestion::Delete));
    s.deleted = Some(Err("foreign key".to_string()));
    assert_eq!(s.next(), Step::Respond(text(Status::NotFound, "Failed to delete board: foreign key")));
    s.deleted = Some(Ok(()));
    assert_eq!(s.next(), Step::Respond(to(Status::Found, "/", Body::Empty)));
}

#[test]
fn posts_window_pages() {
    assert_eq!(posts_window(10, 3), Some(PageWindow { limit: 10, offset: 30 }));
    assert_eq!(posts_window(10, 0), Some(PageWindow { limit: 10, offset: 0 }));
    assert_eq!(posts_window(u32::MAX, 2), None);
    assert_eq!(page_window(65536, 65535), Some(PageWindow { limit: 65536, offset: 65536 * 65535 }));
    assert_eq!(page_window(65536, 65536), None);
}

#[test]
fn get_posts_answers_found_with_data() {
    assert_eq!(get_posts(), Response { status: Status::Found, location: None, body: Body::Data, identity: IdentityChange::Keep });
}

#[test]
fn board_page_plan() {
    let p = board_page(Some("12"), Some("rust"), &BoardQuery { page: Some(2) });
    assert_eq!(p.user_id, 12);
    assert_eq!(p.board, "rust");
    assert_eq!(p.posts, Some(PageWindow { limit: 10, offset: 20 }));
    let p = board_page(None, None, &BoardQuery { page: None });
    assert_eq!(p.user_id, 0);
    assert_eq!(p.board, "");
    assert_eq!(p.posts, Some(PageWindow { limit: 10, offset: 0 }));
    let p = board_page(None, Some("x"), &BoardQuery { page: Some(u32::MAX) });
    assert_eq!(p.posts, None);
}

#[test]
fn board_pg_answers() {
    assert_eq!(board_pg(true), Response { status: Status::Found, location: None, body: Body::Page, identity: IdentityChange::Keep });
    assert_eq!(board_pg(false), text(Status::NotFound, "Board doesn't exist"));
}

#[test]
fn extensions_of_file_names() {
    assert_eq!(file_extension("logo.png"), "png");
    assert_eq!(file_extension("archive.tar.gz"), "gz");
    assert_eq!(file_extension("noext"), "noext");
    assert_eq!(file_extension("file."), "");
    assert_eq!(file_extension(""), "");
    for name in ["a.b.c", "x", ".hidden", "trailing.", "ünï.çødé"] {
        assert_eq!(file_extension(name), name.split('.').last().unwrap());
    }
}

#[test]
fn icon_names() {
    assert_eq!(icon_file_name("rust", Some(Some("logo.png"))), Ok("rust.png".to_string()));
    assert_eq!(icon_file_name("rust", Some(Some("logo"))), Ok("rust.logo".to_string()));
    assert_eq!(icon_file_name("rust", Some(None)), Err("Missing file name!".to_string()));
    assert_eq!(icon_file_name("rust", None), Err("No  payload".to_string()));
    assert_eq!(icon_path("./data", "rust.png"), "./data/rust.png");
    assert_eq!(icon_url("rust.png"), "/data/rust.png");
}

#[test]
fn new_icon_by_owner() {
    let mut s = new_icon(1, Some("rust"));
    assert_eq!(s.next(), Step::Ask(NewIconQuestion::CheckOwner));
    s.owner = Some(Ok(true));
    assert_eq!(s.next(), Step::Ask(NewIconQuestion::SaveIcon));
    s.saved = Some(Ok("rust.png".to_string()));
    assert_eq!(s.next(), Step::Ask(NewIconQuestion::SetIcon));
    s.icon_set = Some(Ok(()));
    assert_eq!(s.next(), Step::Respond(to(Status::SeeOther, "/boards/rust", Body::Empty)));
}

#[test]
fn new_icon_refused_or_failed() {
    let mut s = new_icon(1, Some("rust"));
    s.owner = Some(Ok(false));
    assert_eq!(s.next(), Step::Respond(to(Status::SeeOther, "/boards/rust", Body::Empty)));
    s.owner = Some(Err("down".to_string()));
    assert_eq!(s.next(), Step::Respond(to(Status::SeeOther, "/boards/rust", Body::Empty)));
    s.owner = Some(Ok(true));
    s.saved = Some(Err("Missing file name!".to_string()));
    assert_eq!(s.next(), Step::Respond(to(Status::SeeOther, "/boards/rust", Body::Empty)));
}

#[test]
fn joining_twice_is_answered_already_in() {
    let mut s = join_board(5, Some("rust"));
    s.board_found = Some(true);
    s.owner = Some(Ok(false));
    s.member = Some(Ok(true));
    assert_eq!(
        s.next(),
        Step::Respond(to(Status::Found, "/boards/rust", Body::Text("User is already in server".to_string())))
    );
}
