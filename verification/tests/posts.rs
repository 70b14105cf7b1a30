use forum::handlers::clock::Timestamp;
use forum::handlers::post::{
    delete_post, dislike_post, like_post, newpost, post_pg, post_replies, post_status, time_msg, time_msg_at,
    DeletePostQuestion, NewPostQuestion, NewPostdata, PostPageQuestion, PostQuery, Vote, VoteQuestion,
};
use forum::handlers::reply::{
    dislike_reply, like_reply, new_reply, replies_window, reply_status, NewReplyData, NewReplyQuestion, Reply, ReplyData,
};
use forum::handlers::response::{Body, IdentityChange, PageWindow, Response, Status, Step};
use forum::handlers::user::User;

fn text(status: Status, t: &str) -> Response {
    Response { status, location: None, body: Body::Text(t.to_string()), identity: IdentityChange::Keep }
}

fn empty(status: Status) -> Response {
    Response { status, location: None, body: Body::Empty, identity: IdentityChange::Keep }
}

fn at(secs: i64) -> Timestamp {
    Timestamp { secs, nanos: 0 }
}

fn ago(now: i64, old: Timestamp) -> String {
    time_msg_at(&at(now), &old, "01/01/70")
}

#[test]
fn new_post_by_member() {
    let form = NewPostdata { title: "<b>Hi</b>".to_string(), text: "a <i>b</i>".to_string() };
    let mut s = newpost(4, Some("rust"), form);
    assert_eq!(s.stored_text(), "a &lt;i&gt;b&lt;/i&gt;");
    assert_eq!(s.next(), Step::Ask(NewPostQuestion::CheckMember));
    s.member = Some(Ok(true));
    assert_eq!(s.next(), Step::Ask(NewPostQuestion::InsertPost));
    s.inserted = Some(Ok(41));
    assert_eq!(
        s.next(),
        Step::Respond(Response {
            status: Status::Found,
            location: Some("/boards/rust".to_string()),
            body: Body::JsonNumber(41),
            identity: IdentityChange::Keep,
        })
    );
}

#[test]
fn new_post_id_is_cut_to_32_bits() {
    let mut s = newpost(4, Some("rust"), NewPostdata { title: String::new(), text: String::new() });
    s.member = Some(Ok(true));
    s.inserted = Some(Ok((1u64 << 32) + 5));
    match s.next() {
        Step::Respond(r) => assert_eq!(r.body, Body::JsonNumber(5)),
        other => panic!("unexpected {:?}", other),
    }
}

#[test]
fn new_post_refusals() {
    let mut s = newpost(4, Some("rust"), NewPostdata { title: String::new(), text: String::new() });
    s.member = Some(Ok(false));
    assert_eq!(s.next(), Step::Respond(text(Status::Unauthorized, "User not in board")));
    s.member = Some(Err("down".to_string()));
    assert_eq!(s.next(), Step::Respond(text(Status::Unauthorized, "User not in board")));
    s.member = Some(Ok(true));
    s.inserted = Some(Err("no board".to_string()));
    assert_eq!(s.next(), Step::Respond(text(Status::UnprocessableEntity, "no board")));
}

#[test]
fn votes_on_posts() {
    let mut v = like_post(3, Some("12"));
    assert_eq!(v.next(), Step::Ask(VoteQuestion::Record { id: 12, is_like: true }));
    v.recorded = Some(Ok(()));
    assert_eq!(v.next(), Step::Respond(empty(Status::Success)));
    v.recorded = Some(Err("fk".to_string()));
    assert_eq!(v.next(), Step::Respond(text(Status::InternalServerError, "fk")));
    let v = dislike_post(3, Some("+12"));
    assert_eq!(v.next(), Step::Ask(VoteQuestion::Record { id: 12, is_like: false }));
}

#[test]
fn votes_with_bad_targets() {
    assert_eq!(like_post(3, None).next(), Step::Respond(empty(Status::UnprocessableEntity)));
    assert_eq!(
        like_post(3, Some("abc")).next(),
        Step::Respond(text(Status::UnprocessableEntity, "invalid digit found in string"))
    );
    assert_eq!(
        dislike_post(3, Some("")).next(),
        Step::Respond(text(Status::UnprocessableEntity, "cannot parse integer from empty string"))
    );
    assert_eq!(
        like_reply(3, Some("4294967296")).next(),
        Step::Respond(text(Status::UnprocessableEntity, "number too large to fit in target type"))
    );
}

#[test]
fn votes_on_replies() {
    let v = like_reply(8, Some("2"));
    assert_eq!(v.next(), Step::Ask(VoteQuestion::Record { id: 2, is_like: true }));
    let v = dislike_reply(8, Some("2"));
    assert_eq!(v.next(), Step::Ask(VoteQuestion::Record { id: 2, is_like: false }));
    assert_eq!(Vote::new(1, Some("9"), true).target, Some("9".to_string()));
}

#[test]
fn vote_statuses() {
    assert_eq!(post_status(Some(1)), Some(true));
    assert_eq!(post_status(Some(0)), Some(false));
    assert_eq!(post_status(Some(-1)), Some(true));
    assert_eq!(post_status(None), None);
    assert_eq!(reply_status(Some(0)), Some(false));
    assert_eq!(reply_status(None), None);
}

#[test]
fn delete_own_post() {
    let mut s = delete_post(7, Some("30"));
    assert_eq!(s.post_id, 30);
    assert_eq!(s.next(), Step::Ask(DeletePostQuestion::FetchPost));
    s.post = Some(Ok((7, "rust".to_string())));
    assert_eq!(s.next(), Step::Ask(DeletePostQuestion::Delete));
    s.deleted = Some(Ok(()));
    assert_eq!(s.next(), Step::Respond(empty(Status::Success)));
}

#[test]
fn delete_post_as_board_owner() {
    let mut s = delete_post(7, Some("30"));
    s.post = Some(Ok((8, "rust".to_string())));
    assert_eq!(s.next(), Step::Ask(DeletePostQuestion::CheckBoardOwner));
    s.board_owner = Some(Ok(true));
    assert_eq!(s.next(), Step::Ask(DeletePostQuestion::Delete));
    s.deleted = Some(Err("locked".to_string()));
    assert_eq!(s.next(), Step::Respond(text(Status::InternalServerError, "locked")));
}

#[test]
fn delete_post_forbidden() {
    let mut s = delete_post(7, Some("x"));
    assert_eq!(s.post_id, 0);
    s.post = Some(Err("no rows".to_string()));
    assert_eq!(s.next(), Step::Respond(text(Status::InternalServerError, "no rows")));
    s.post = Some(Ok((8, "rust".to_string())));
    s.board_owner = Some(Err("down".to_string()));
    assert_eq!(
        s.next(),
        Step::Respond(text(Status::Forbidden, "Only the owner of the post or owner of the board can delete posts!"))
    );
}

#[test]
fn time_messages() {
    assert_eq!(ago(1000, at(990)), "a few seconds ago");
    assert_eq!(ago(1000, at(1030)), "a few seconds ago");
    assert_eq!(ago(1060, Timestamp { secs: 1000, nanos: 500_000_000 }), "a few seconds ago");
    assert_eq!(ago(1060, at(1000)), "1 minute ago");
    assert_eq!(ago(1125, at(1000)), "2 minutes ago");
    assert_eq!(ago(1000 + 59 * 60 + 59, at(1000)), "59 minutes ago");
    assert_eq!(ago(1000 + 3600, at(1000)), "1 hour ago");
    assert_eq!(ago(1000 + 7199, at(1000)), "1 hour ago");
    assert_eq!(ago(1000 + 7200, at(1000)), "2 hours ago");
    assert_eq!(ago(1000 + 86399, at(1000)), "23 hours ago");
    assert_eq!(ago(1000 + 86400, at(1000)), "01/01/70");
    assert_eq!(ago(1000, at(1120)), "01/01/70");
}

#[test]
fn time_msg_of_an_old_instant_is_its_date() {
    let old = Timestamp { secs: 86_400 * 45 + 3, nanos: 0 };
    let expected = chrono::DateTime::from_timestamp(old.secs, 0).unwrap().format("%x").to_string();
    assert_eq!(expected, "02/15/70");
    assert_eq!(time_msg(&at(86_400 * 50), &old), expected);
}

#[test]
fn time_msg_with_the_clock() {
    let now = chrono::Utc::now();
    let now = Timestamp { secs: now.timestamp(), nanos: now.timestamp_subsec_nanos() };
    assert_eq!(time_msg(&now, &now), "a few seconds ago");
    let hour_ago = Timestamp { secs: now.secs - 3700, nanos: 0 };
    assert_eq!(time_msg(&now, &hour_ago), "1 hour ago");
}

/// The message that chrono's own arithmetic and formatting give.
fn chrono_message(now: Timestamp, old: Timestamp) -> String {
    let n = chrono::DateTime::from_timestamp(now.secs, now.nanos).unwrap();
    let o = chrono::DateTime::from_timestamp(old.secs, old.nanos).unwrap();
    let diff = n.signed_duration_since(o);
    let mins = diff.num_minutes();
    match mins {
        0 => String::from("a few seconds ago"),
        1 => format!("{} minute ago", mins),
        2..=59 => format!("{} minutes ago", mins),
        60..=119 => format!("{} hour ago", diff.num_hours()),
        120..=1439 => format!("{} hours ago", diff.num_hours()),
        _ => o.format("%x").to_string(),
    }
}

#[test]
fn time_msg_agrees_with_chrono_also_at_leap_seconds() {
    let base = 1_700_000_039i64; // a second that ends a minute
    assert_eq!(base % 60, 59);
    let instants = [
        Timestamp { secs: base, nanos: 0 },
        Timestamp { secs: base, nanos: 1_500_000_000 },
        Timestamp { secs: base, nanos: 999_999_999 },
        Timestamp { secs: base + 60, nanos: 1_200_000_000 },
        Timestamp { secs: base - 60, nanos: 1_999_999_999 },
        Timestamp { secs: base + 1, nanos: 0 },
        Timestamp { secs: base - 1, nanos: 500_000_000 },
        Timestamp { secs: base + 59, nanos: 0 },
        Timestamp { secs: base - 59, nanos: 700_000_000 },
        Timestamp { secs: base + 3600, nanos: 1_000_000_000 },
        Timestamp { secs: base + 86_400 - 60, nanos: 1_000_000_000 },
        Timestamp { secs: base + 86_400, nanos: 1_000_000_000 },
        Timestamp { secs: base - 86_400 * 3, nanos: 0 },
    ];
    for now in instants {
        for old in instants {
            assert!(now.is_wf() && old.is_wf());
            assert_eq!(time_msg(&now, &old), chrono_message(now, old), "{:?} {:?}", now, old);
        }
    }
}

/// The date text of the calendar computation that `short_date` states.
fn stated_date(secs: i64) -> String {
    let days = secs.div_euclid(86_400);
    let z = days + 719_468;
    let era = z.div_euclid(146_097);
    let doe = z - era * 146_097;
    let yoe = (doe - doe / 1460 + doe / 36_524 - doe / 146_096) / 365;
    let doy = doe - (365 * yoe + yoe / 4 - yoe / 100);
    let mp = (5 * doy + 2) / 153;
    let day = doy - (153 * mp + 2) / 5 + 1;
    let month = if mp < 10 { mp + 3 } else { mp - 9 };
    let year = yoe + era * 400 + if month <= 2 { 1 } else { 0 };
    format!("{:02}/{:02}/{:02}", month, day, year.rem_euclid(100))
}

#[test]
fn stated_date_agrees_with_chrono() {
    let mut secs: Vec<i64> = vec![
        0, -1, 86_399, 86_400, 951_782_400, 951_868_800, 4_107_456_000, -62_135_596_800, -62_167_219_200,
        -62_198_755_200, 8_210_266_876_799, -8_334_601_228_800, 1_700_000_039,
    ];
    let mut x: i64 = -8_334_601_228_800;
    while x < 8_210_266_876_799 - 7_777_777_777 {
        secs.push(x);
        x += 7_777_777_777;
    }
    let mut y: i64 = -40 * 31_556_952 * 100;
    while y < 40 * 31_556_952 * 100 {
        secs.push(y);
        y += 86_400 * 29 + 12_345;
    }
    for s in secs {
        let chrono_text = chrono::DateTime::from_timestamp(s, 0).unwrap().format("%x").to_string();
        assert_eq!(stated_date(s), chrono_text, "{}", s);
        let at = Timestamp { secs: s, nanos: 0 };
        let later = Timestamp { secs: s + 86_400 * 2, nanos: 0 };
        if later.is_wf() {
            assert_eq!(time_msg(&later, &at), chrono_text, "{}", s);
        }
    }
}

#[test]
fn timestamps_in_chrono_range() {
    assert!(Timestamp { secs: 0, nanos: 0 }.is_wf());
    assert!(!Timestamp { secs: 0, nanos: 1_000_000_000 }.is_wf());
    assert!(Timestamp { secs: 59, nanos: 1_000_000_000 }.is_wf());
    assert!(Timestamp { secs: -1, nanos: 1_999_999_999 }.is_wf());
    assert!(!Timestamp { secs: 59, nanos: 2_000_000_000 }.is_wf());
    assert!(chrono::DateTime::from_timestamp(-1, 1_999_999_999).is_some());
    assert!(chrono::DateTime::from_timestamp(0, 1_000_000_000).is_none());
    assert!(Timestamp { secs: 8210266876799, nanos: 999_999_999 }.is_wf());
    assert!(!Timestamp { secs: 8210266876800, nanos: 0 }.is_wf());
    assert!(chrono::DateTime::from_timestamp(8210266876799, 999_999_999).is_some());
    assert!(chrono::DateTime::from_timestamp(8210266876800, 0).is_none());
    assert!(chrono::DateTime::from_timestamp(-8334601228800, 0).is_some());
    assert!(chrono::DateTime::from_timestamp(-8334601228801, 0).is_none());
}

#[test]
fn post_page_plan_and_answers() {
    let mut p = post_pg(Some("5"), Some("30"), &PostQuery { page: Some(1) });
    assert_eq!((p.user_id, p.post_id), (5, 30));
    assert_eq!(p.replies, Some(PageWindow { limit: 10, offset: 10 }));
    assert_eq!(p.next(), Step::Ask(PostPageQuestion::FetchPost));
    p.post = Some(Err("no rows".to_string()));
    assert_eq!(p.next(), Step::Respond(text(Status::NotFound, "no rows")));
    p.post = Some(Ok(9));
    assert_eq!(p.next(), Step::Ask(PostPageQuestion::FetchPoster { poster_id: 9 }));
    p.poster = Some(Err("gone".to_string()));
    assert_eq!(p.next(), Step::Respond(text(Status::NotFound, "gone")));
    p.poster = Some(Ok(()));
    assert_eq!(
        p.next(),
        Step::Respond(Response { status: Status::Found, location: None, body: Body::Page, identity: IdentityChange::Keep })
    );
    let p = post_pg(None, None, &PostQuery { page: None });
    assert_eq!((p.user_id, p.post_id, p.replies), (0, 0, Some(PageWindow { limit: 10, offset: 0 })));
}

fn user(id: u32) -> User {
    User {
        id,
        username: format!("u{}", id),
        email: String::new(),
        password: Vec::new(),
        created_at: at(0),
        pfp: String::new(),
        banner: String::new(),
        bio: None,
    }
}

fn reply(id: u32, poster: u32) -> Reply {
    Reply { id, created_at: at(id as i64), poster_id: poster, parent_id: 1, text: format!("r{}", id) }
}

#[test]
fn replies_without_poster_are_left_out() {
    let shown = post_replies(
        vec![reply(1, 10), reply(2, 11), reply(3, 12)],
        vec![Some(user(10)), None, Some(user(12))],
        vec![Some(true), Some(false), None],
    );
    assert_eq!(
        shown,
        vec![
            ReplyData { id: 1, created_at: at(1), poster_data: user(10), text: "r1".to_string(), status: Some(true) },
            ReplyData { id: 3, created_at: at(3), poster_data: user(12), text: "r3".to_string(), status: None },
        ]
    );
    assert_eq!(post_replies(Vec::new(), Vec::new(), Vec::new()), Vec::new());
}

#[test]
fn new_reply_flow() {
    let mut s = new_reply(2, Some("17"), NewReplyData { text: "x > y".to_string() });
    assert_eq!(s.parent, "17");
    assert_eq!(s.stored_text(), "x &gt; y");
    assert_eq!(s.next(), Step::Ask(NewReplyQuestion::InsertReply));
    s.inserted = Some(Ok(3));
    assert_eq!(
        s.next(),
        Step::Respond(Response { status: Status::Success, location: None, body: Body::JsonNumber(3), identity: IdentityChange::Keep })
    );
    s.inserted = Some(Err("bad parent".to_string()));
    assert_eq!(s.next(), Step::Respond(text(Status::UnprocessableEntity, "bad parent")));
    assert_eq!(new_reply(2, None, NewReplyData { text: String::new() }).parent, "");
}

#[test]
fn replies_window_pages() {
    assert_eq!(replies_window(10, 4), Some(PageWindow { limit: 10, offset: 40 }));
    assert_eq!(replies_window(2, u32::MAX), None);
}
