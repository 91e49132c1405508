use giftlist::data::{
    Auth, ClaimGift, CreateList, FormGift, List, ListUser, ModifyGiftList, ModifyList, User,
};
use giftlist::db::DbConn;
use giftlist::failure::Failure;
use giftlist::members::FreshUser;
use giftlist::pages::Page;
use giftlist::webserver::{CookiePolicy, WebServer};

fn s(text: &str) -> String {
    text.to_string()
}

fn cookie(uuid: &str) -> Option<String> {
    Some(s(uuid))
}

fn user(uuid: &str, name: &str, can_create: bool) -> User {
    User { uuid: s(uuid), email: format!("{}@example.com", name), name: s(name), can_create, is_me: false }
}

fn entry(name: &str) -> ListUser {
    ListUser { name: s(name), email: format!("{}@example.com", name) }
}

fn fresh(uuid: &str) -> FreshUser {
    FreshUser { uuid: s(uuid), auth_token: format!("token-{}", uuid) }
}

fn form(uuid: &str, url: &str, comment: &str, alt: &str) -> FormGift {
    FormGift { uuid: s(uuid), url: s(url), comment: s(comment), alternate_to_uuid: s(alt) }
}

fn store() -> DbConn {
    let mut conn = DbConn::init_db();
    conn.create_user(user("u1", "ann", true), s("t1")).unwrap();
    conn.create_user(user("u2", "bea", false), s("t2")).unwrap();
    conn.create_user(user("u3", "cal", false), s("t3")).unwrap();
    conn.create_list(List { uuid: s("l1"), name: s("Birthday"), owner: s("u1"), im_owner: true }).unwrap();
    conn.add_user_to_list(s("u2"), s("l1"));
    conn.add_user_to_list(s("u3"), s("l1"));
    conn
}

#[test]
fn session_cookie_is_read() {
    assert_eq!(WebServer::get_user_cookie(Some(s("u1"))), Ok(s("u1")));
    assert_eq!(WebServer::get_user_cookie(Some(s(""))), Ok(s("")));
    assert_eq!(WebServer::get_user_cookie(None), Err(s("No cookie retrieved")));
}

#[test]
fn session_cookie_is_set_lax_under_its_name() {
    let c = WebServer::set_user_cookie(s("u1"));
    assert_eq!(c.name, "userToken");
    assert_eq!(c.value, "u1");
    assert!(matches!(c.policy, CookiePolicy::Lax));
}

#[test]
fn guard_lets_requests_with_a_session_pass() {
    let auth: Option<Auth> = WebServer::auth(&Some(s("u1")));
    assert_eq!(auth.unwrap().user_token, "");
    assert!(WebServer::auth(&None).is_none());
}

#[test]
fn current_user_is_resolved_from_the_cookie() {
    let conn = store();
    let u = WebServer::get_current_user(cookie("u2"), &conn).ok().unwrap();
    assert_eq!(u.uuid, "u2");
    assert_eq!(u.name, "bea");
    assert!(u.is_me);
    assert!(matches!(WebServer::get_current_user(None, &conn), Err(Failure::Unauthenticated)));
    assert!(matches!(WebServer::get_current_user(cookie("nope"), &conn), Err(Failure::NotFound)));
}

#[test]
fn login_with_a_known_token_sets_the_cookie() {
    let conn = store();
    let r = WebServer::login(s("t2"), &conn);
    assert_eq!(r.redirect, "/user");
    let c = r.cookie.unwrap();
    assert_eq!(c.name, "userToken");
    assert_eq!(c.value, "u2");
    let r = WebServer::login(s("wrong"), &conn);
    assert_eq!(r.redirect, "/");
    assert!(r.cookie.is_none());
}

#[test]
fn user_page_lists_the_lists_of_the_user() {
    let conn = store();
    match WebServer::user_page(cookie("u2"), &conn) {
        Ok(page) => {
            assert_eq!(page.template(), "user");
            match page {
                Page::User(p) => {
                    assert_eq!(p.current_user.uuid, "u2");
                    assert_eq!(p.lists.len(), 1);
                    assert_eq!(p.lists[0].name, "Birthday");
                    assert!(!p.lists[0].im_owner);
                }
                _ => panic!("expected the user page"),
            }
        }
        Err(_) => panic!("expected a page"),
    }
    assert!(matches!(WebServer::user_page(None, &conn), Err(Failure::Unauthenticated)));
}

#[test]
fn list_page_names_the_owner() {
    let conn = store();
    match WebServer::list_page(s("l1"), cookie("u2"), &conn) {
        Ok(Page::List(p)) => {
            assert_eq!(p.list.uuid, "l1");
            assert_eq!(p.list.owner, "ann");
            assert!(!p.list.im_owner);
            assert_eq!(p.users.len(), 3);
            assert_eq!(p.users.iter().filter(|u| u.is_me).count(), 1);
            assert_eq!(p.current_user.uuid, "u2");
        }
        _ => panic!("expected the list page"),
    }
    assert!(matches!(WebServer::list_page(s("nope"), cookie("u2"), &conn), Err(Failure::NotFound)));
}

#[test]
fn list_user_page_exports_the_gifts() {
    let mut conn = store();
    let gifts = ModifyGiftList {
        list_uuid: s("l1"),
        gifts: vec![form("", "http://a", "a", ""), form("", "http://b", "b", "")],
    };
    let r = WebServer::modify_gift_list_with(&gifts, cookie("u2"), &mut conn, &vec![s("g-a"), s("g-b")]);
    assert_eq!(r.ok(), Some(s("Success!")));
    WebServer::claim_gift(&ClaimGift { gift_uuid: s("g-b") }, cookie("u3"), &mut conn).ok().unwrap();

    match WebServer::list_user_page(s("l1"), s("u2"), cookie("u3"), &conn) {
        Ok(page) => {
            assert_eq!(page.template(), "list_user_other");
            match page {
                Page::ListUser(p) => {
                    assert_eq!(p.user.uuid, "u2");
                    assert_eq!(p.list.name, "Birthday");
                    assert_eq!(p.gifts.len(), 2);
                    assert_eq!(p.gifts[0].uuid, "g-a");
                    assert!(!p.gifts[0].claimed);
                    assert_eq!(p.gifts[0].claimed_by_name, "null");
                    assert!(!p.gifts[0].claimed_by_me);
                    assert!(p.gifts[1].claimed);
                    assert_eq!(p.gifts[1].claimed_by_name, "cal");
                    assert!(p.gifts[1].claimed_by_me);
                    let page = p.into_page(s("[]"));
                    assert_eq!(page.gifts_data, "[]");
                    assert_eq!(page.user.uuid, "u2");
                    assert_eq!(page.current_user.uuid, "u3");
                }
                _ => panic!("expected the page of a member"),
            }
        }
        Err(_) => panic!("expected a page"),
    }
    match WebServer::list_user_page(s("l1"), s("u2"), cookie("u2"), &conn) {
        Ok(page) => assert_eq!(page.template(), "list_user_self"),
        Err(_) => panic!("expected a page"),
    }
    assert!(matches!(
        WebServer::list_user_page(s("l1"), s("nope"), cookie("u2"), &conn),
        Err(Failure::NotFound)
    ));
}

#[test]
fn create_list_page_is_for_those_who_may_create() {
    let conn = store();
    let page = WebServer::create_list_page(cookie("u1"), &conn).ok().unwrap();
    assert!(matches!(page, Page::CreateList));
    assert_eq!(page.template(), "create_list");
    let page = WebServer::create_list_page(cookie("u2"), &conn).ok().unwrap();
    assert!(matches!(page, Page::NotFound));
    assert_eq!(page.template(), "not_found");
}

#[test]
fn modify_list_page_is_for_the_owner() {
    let conn = store();
    match WebServer::modify_list_page(s("l1"), cookie("u1"), &conn) {
        Ok(page) => {
            assert_eq!(page.template(), "modify_list");
            match page {
                Page::ModifyList(p) => {
                    let names: Vec<&str> = p.users.iter().map(|u| u.name.as_str()).collect();
                    assert_eq!(names, vec!["ann", "bea", "cal"]);
                    assert_eq!(p.users[1].email, "bea@example.com");
                    assert!(p.list.im_owner);
                }
                _ => panic!("expected the page that edits a list"),
            }
        }
        Err(_) => panic!("expected a page"),
    }
    let page = WebServer::modify_list_page(s("l1"), cookie("u2"), &conn).ok().unwrap();
    assert!(matches!(page, Page::NotFound));
}

#[test]
fn claim_answers() {
    let mut conn = store();
    let gifts = ModifyGiftList { list_uuid: s("l1"), gifts: vec![form("", "http://a", "a", "")] };
    WebServer::modify_gift_list_with(&gifts, cookie("u2"), &mut conn, &vec![s("g-a")]).ok().unwrap();
    let claim = ClaimGift { gift_uuid: s("g-a") };
    assert_eq!(WebServer::claim_gift(&claim, cookie("u3"), &mut conn).ok(), Some(s("Claimed!")));
    assert_eq!(
        WebServer::claim_gift(&claim, cookie("u1"), &mut conn).ok(),
        Some(s("Item already claimed by cal"))
    );
    assert_eq!(
        WebServer::unclaim_gift(&claim, cookie("u1"), &mut conn).ok(),
        Some(s("Item claimed by cal"))
    );
    assert_eq!(
        WebServer::unclaim_gift(&claim, cookie("u2"), &mut conn).ok(),
        Some(s("You can't unclaim your own gifts :|"))
    );
    assert!(matches!(
        WebServer::claim_gift(&ClaimGift { gift_uuid: s("nope") }, cookie("u3"), &mut conn),
        Err(Failure::NotFound)
    ));
    assert!(matches!(WebServer::claim_gift(&claim, None, &mut conn), Err(Failure::Unauthenticated)));
    assert!(matches!(WebServer::unclaim_gift(&claim, cookie("gone"), &mut conn), Err(Failure::NotFound)));
}

#[test]
fn gift_list_answers() {
    let mut conn = store();
    conn.create_user(user("u9", "zed", false), s("t9")).unwrap();
    let gifts = ModifyGiftList { list_uuid: s("l1"), gifts: vec![form("", "http://a", "a", "")] };
    assert_eq!(
        WebServer::modify_gift_list_with(&gifts, cookie("u9"), &mut conn, &vec![s("g-x")]).ok(),
        Some(s("Unauthorized"))
    );
    assert!(conn.gift_rows().is_empty());
    WebServer::modify_gift_list_with(&gifts, cookie("u2"), &mut conn, &vec![s("g-a")]).ok().unwrap();
    let theft = ModifyGiftList { list_uuid: s("l1"), gifts: vec![form("g-a", "http://b", "b", "")] };
    assert_eq!(
        WebServer::modify_gift_list_with(&theft, cookie("u3"), &mut conn, &vec![s("g-y")]).ok(),
        Some(s("Can't modify item you don't own"))
    );
    assert_eq!(conn.gift_rows()[0].url, "http://a");
    let missing = ModifyGiftList { list_uuid: s("l1"), gifts: vec![form("", "http://b", "b", "newRow-9")] };
    assert!(matches!(
        WebServer::modify_gift_list_with(&missing, cookie("u3"), &mut conn, &vec![s("g-z")]),
        Err(Failure::UnknownPlaceholder)
    ));
    assert!(matches!(WebServer::modify_gift_list(&gifts, None, &mut conn), Err(Failure::Unauthenticated)));
}

#[test]
fn create_list_adds_known_and_new_members_and_invites_them() {
    let mut conn = store();
    let list = CreateList { name: s("Wedding"), users: vec![entry("bea"), entry("dan")] };
    let answer =
        WebServer::create_list_with(&list, cookie("u1"), &mut conn, s("l2"), &vec![fresh("x1"), fresh("x2")]);
    assert_eq!(answer.answer.ok(), Some(s("Success!")));
    assert_eq!(answer.invites.len(), 2);
    assert_eq!(answer.invites[0].list_name, "Wedding");
    assert_eq!(answer.invites[0].user.uuid, "u2");
    assert_eq!(answer.invites[0].auth_token, "t2");
    assert_eq!(answer.invites[1].user.uuid, "x2");
    assert_eq!(answer.invites[1].user.name, "dan");
    assert_eq!(answer.invites[1].user.email, "dan@example.com");
    assert!(!answer.invites[1].user.can_create);
    assert_eq!(answer.invites[1].auth_token, "token-x2");
    let members: Vec<String> = conn.users_of_list(s("l2"), s("u1")).into_iter().map(|u| u.uuid).collect();
    assert_eq!(members, vec!["u1", "u2", "x2"]);
    let l = conn.list_from_uuid(s("l2"), s("u1")).ok().unwrap();
    assert_eq!(l.name, "Wedding");
    assert_eq!(l.owner, "u1");
    assert_eq!(conn.user_rows().len(), 4);
}

#[test]
fn create_list_needs_the_privilege() {
    let mut conn = store();
    let list = CreateList { name: s("Wedding"), users: vec![entry("dan")] };
    let answer = WebServer::create_list_with(&list, cookie("u2"), &mut conn, s("l2"), &vec![fresh("x1")]);
    assert_eq!(answer.answer.ok(), Some(s("You don't have permission to create lists")));
    assert!(answer.invites.is_empty());
    assert_eq!(conn.list_rows().len(), 1);
    assert_eq!(conn.user_rows().len(), 3);
    let answer = WebServer::create_list(&list, None, &mut conn);
    assert!(matches!(answer.answer, Err(Failure::Unauthenticated)));
}

#[test]
fn create_list_under_a_taken_identifier_fails() {
    let mut conn = store();
    let list = CreateList { name: s("Wedding"), users: vec![entry("dan")] };
    let answer = WebServer::create_list_with(&list, cookie("u1"), &mut conn, s("l1"), &vec![fresh("x1")]);
    assert!(matches!(answer.answer, Err(Failure::StoreFailure)));
    assert!(answer.invites.is_empty());
    assert_eq!(conn.user_rows().len(), 3);
}

#[test]
fn new_member_under_a_taken_identifier_fails_and_earlier_invites_stand() {
    let mut conn = store();
    let list = CreateList { name: s("Wedding"), users: vec![entry("dan"), entry("eve"), entry("fay")] };
    let answer = WebServer::create_list_with(
        &list,
        cookie("u1"),
        &mut conn,
        s("l2"),
        &vec![fresh("x1"), fresh("u3"), fresh("x3")],
    );
    assert!(matches!(answer.answer, Err(Failure::StoreFailure)));
    assert_eq!(answer.invites.len(), 1);
    assert_eq!(answer.invites[0].user.name, "dan");
    assert_eq!(conn.user_rows().len(), 4);
    assert_eq!(conn.users_of_list(s("l2"), s("u1")).len(), 2);
}

#[test]
fn modify_list_renames_and_adds_only_new_members() {
    let mut conn = store();
    let list = ModifyList { uuid: s("l1"), name: s("Jubilee"), users: vec![entry("bea"), entry("dan")] };
    let answer = WebServer::modify_list_with(&list, cookie("u1"), &mut conn, &vec![fresh("x1"), fresh("x2")]);
    assert_eq!(answer.answer.ok(), Some(s("Success!")));
    assert_eq!(answer.invites.len(), 1);
    assert_eq!(answer.invites[0].user.name, "dan");
    assert_eq!(answer.invites[0].list_name, "Jubilee");
    assert_eq!(answer.invites[0].auth_token, "token-x2");
    assert_eq!(conn.list_from_uuid(s("l1"), s("u1")).ok().unwrap().name, "Jubilee");
    let members: Vec<String> = conn.users_of_list(s("l1"), s("u1")).into_iter().map(|u| u.uuid).collect();
    assert_eq!(members, vec!["u1", "u2", "u3", "x2"]);
}

#[test]
fn modify_list_is_for_the_owner() {
    let mut conn = store();
    let list = ModifyList { uuid: s("l1"), name: s("Mine"), users: vec![entry("dan")] };
    let answer = WebServer::modify_list_with(&list, cookie("u2"), &mut conn, &vec![fresh("x1")]);
    assert_eq!(answer.answer.ok(), Some(s("Can't modify list you don't own")));
    assert!(answer.invites.is_empty());
    assert_eq!(conn.list_from_uuid(s("l1"), s("u1")).ok().unwrap().name, "Birthday");
    assert_eq!(conn.user_rows().len(), 3);
    let list = ModifyList { uuid: s("nope"), name: s("Mine"), users: vec![] };
    let answer = WebServer::modify_list(&list, cookie("u1"), &mut conn);
    assert!(matches!(answer.answer, Err(Failure::NotFound)));
}

#[test]
fn member_drawn_at_random_gets_a_token_and_an_identifier() {
    let mut conn = store();
    let invite = WebServer::create_user_and_add_to_list(s("Birthday"), s("l1"), s("u1"), entry("dan"), &mut conn)
        .ok()
        .unwrap();
    assert_eq!(invite.user.name, "dan");
    assert_eq!(invite.user.uuid.len(), 36);
    assert_eq!(invite.auth_token.len(), 512);
    assert_eq!(conn.user_uuid_from_auth_token(invite.auth_token.clone()).ok(), Some(invite.user.uuid.clone()));
    let again = WebServer::create_user_and_add_to_list(s("Birthday"), s("l1"), s("u1"), entry("dan"), &mut conn)
        .ok()
        .unwrap();
    assert_eq!(again.user.uuid, invite.user.uuid);
    assert_eq!(again.auth_token, invite.auth_token);
    assert_eq!(conn.user_rows().len(), 4);
}

#[test]
fn plain_pages_have_their_templates() {
    assert_eq!(WebServer::index().template(), "index");
    assert_eq!(WebServer::not_found().template(), "not_found");
    assert_eq!(WebServer::access_denied().template(), "access_denied");
    assert_eq!(WebServer::internal_error().template(), "internal_error");
}

#[test]
fn entry_named_twice_makes_one_user_and_two_invitations() {
    let mut conn = store();
    let list = CreateList { name: s("Wedding"), users: vec![entry("dan"), entry("dan")] };
    let answer =
        WebServer::create_list_with(&list, cookie("u1"), &mut conn, s("l2"), &vec![fresh("x1"), fresh("x2")]);
    assert_eq!(answer.answer.ok(), Some(s("Success!")));
    assert_eq!(answer.invites.len(), 2);
    assert_eq!(answer.invites[0].user.uuid, "x1");
    assert_eq!(answer.invites[1].user.uuid, "x1");
    assert_eq!(answer.invites[1].auth_token, "token-x1");
    let rows = conn.user_rows();
    assert_eq!(rows.iter().filter(|u| u.email == "dan@example.com").count(), 1);
    assert_eq!(rows.len(), 4);
    let members = conn.member_rows();
    assert_eq!(members.iter().filter(|m| m.list_uuid == "l2" && m.user_uuid == "x1").count(), 2);
}

#[test]
fn own_page_exports_the_claim_of_another_member() {
    let mut conn = store();
    let gifts = ModifyGiftList { list_uuid: s("l1"), gifts: vec![form("", "http://a", "a", "")] };
    WebServer::modify_gift_list_with(&gifts, cookie("u2"), &mut conn, &vec![s("g-a")]).ok().unwrap();
    WebServer::claim_gift(&ClaimGift { gift_uuid: s("g-a") }, cookie("u3"), &mut conn).ok().unwrap();
    match WebServer::list_user_page(s("l1"), s("u2"), cookie("u2"), &conn) {
        Ok(Page::ListUser(p)) => {
            assert!(p.user.is_me);
            assert!(p.gifts[0].claimed);
            assert!(!p.gifts[0].claimed_by_me);
        }
        _ => panic!("expected the page of a member"),
    }
}
