use giftlist::data::{ClaimGift, CreateList, DeleteList, FormGift, ModifyGiftList, User, ListUser};
use giftlist::db::DbConn;
use giftlist::failure::Failure;
use giftlist::webserver::WebServer;

fn s(text: &str) -> String {
    text.to_string()
}

fn cookie(uuid: &str) -> Option<String> {
    Some(s(uuid))
}

fn entry(name: &str) -> ListUser {
    ListUser { name: s(name), email: format!("{}@example.com", name) }
}

/// A store with the users U1 (who may create lists) and, through the list
/// "Birthday" that U1 creates, the members U2, U3 and U4. Returns the store,
/// the list's identifier and the users' identifiers.
fn birthday() -> (DbConn, String, String, String, String, String) {
    let mut conn = DbConn::init_db();
    conn.create_user(
        User { uuid: s("u1"), email: s("u1@example.com"), name: s("u1"), can_create: true, is_me: false },
        s("token-u1"),
    )
    .unwrap();
    let form = CreateList { name: s("Birthday"), users: vec![entry("u2"), entry("u3"), entry("u4")] };
    let answer = WebServer::create_list(&form, cookie("u1"), &mut conn);
    assert_eq!(answer.answer.ok(), Some(s("Success!")));
    assert_eq!(answer.invites.len(), 3);
    let list = conn.lists_of_user(s("u1"))[0].uuid.clone();
    let u2 = conn.user_from_email(s("u2@example.com")).ok().unwrap().uuid;
    let u3 = conn.user_from_email(s("u3@example.com")).ok().unwrap().uuid;
    let u4 = conn.user_from_email(s("u4@example.com")).ok().unwrap().uuid;
    (conn, list, s("u1"), u2, u3, u4)
}

fn submit_socks(conn: &mut DbConn, list: &str, member: &str) -> String {
    let form = ModifyGiftList {
        list_uuid: s(list),
        gifts: vec![FormGift { uuid: s(""), url: s("http://x"), comment: s("socks"), alternate_to_uuid: s("") }],
    };
    let answer = WebServer::modify_gift_list(&form, cookie(member), conn);
    assert_eq!(answer.ok(), Some(s("Success!")));
    let gifts = conn.gifts_of_list_user(s(list), s(member), s(member));
    assert_eq!(gifts.len(), 1);
    gifts[0].uuid.clone()
}

#[test]
fn member_adds_a_gift_and_others_claim_and_release_it() {
    let (mut conn, list, _u1, u2, u3, u4) = birthday();
    let gift = submit_socks(&mut conn, &list, &u2);
    let rows = conn.gift_rows();
    assert_eq!(rows.len(), 1);
    assert_eq!(rows[0].user_uuid, u2);
    assert_eq!(rows[0].url, "http://x");
    assert_eq!(rows[0].comment, "socks");
    assert!(!rows[0].claimed);
    assert!(rows[0].claimed_by.is_none());
    assert!(rows[0].alternate_to.is_none());

    let claim = ClaimGift { gift_uuid: gift.clone() };
    assert_eq!(WebServer::claim_gift(&claim, cookie(&u3), &mut conn).ok(), Some(s("Claimed!")));
    let rows = conn.gift_rows();
    assert!(rows[0].claimed);
    assert_eq!(rows[0].claimed_by, Some(u3.clone()));

    assert_eq!(
        WebServer::claim_gift(&claim, cookie(&u2), &mut conn).ok(),
        Some(s("You can't claim your own gifts :|"))
    );
    let rows = conn.gift_rows();
    assert!(rows[0].claimed);
    assert_eq!(rows[0].claimed_by, Some(u3.clone()));

    assert_eq!(WebServer::unclaim_gift(&claim, cookie(&u3), &mut conn).ok(), Some(s("Unclaimed!")));
    let rows = conn.gift_rows();
    assert!(!rows[0].claimed);
    assert!(rows[0].claimed_by.is_none());

    assert_eq!(
        WebServer::unclaim_gift(&claim, cookie(&u4), &mut conn).ok(),
        Some(s("Item isn't claimed"))
    );
    let rows = conn.gift_rows();
    assert!(!rows[0].claimed);
    assert!(rows[0].claimed_by.is_none());
}

#[test]
fn same_steps_through_the_engine_give_the_typed_failures() {
    let (mut conn, list, _u1, u2, u3, u4) = birthday();
    let gift = submit_socks(&mut conn, &list, &u2);
    let as_user = |conn: &DbConn, uuid: &str| conn.user_from_uuid(s(uuid), s(uuid)).ok().unwrap();
    let acting = as_user(&conn, &u3);
    assert!(giftlist::claim::claim(&mut conn, gift.clone(), acting).is_ok());
    let acting = as_user(&conn, &u2);
    assert!(matches!(
        giftlist::claim::claim(&mut conn, gift.clone(), acting),
        Err(Failure::SelfClaimForbidden)
    ));
    let acting = as_user(&conn, &u3);
    assert!(giftlist::claim::unclaim(&mut conn, gift.clone(), acting).is_ok());
    let acting = as_user(&conn, &u4);
    assert!(matches!(
        giftlist::claim::unclaim(&mut conn, gift.clone(), acting),
        Err(Failure::NotClaimed)
    ));
}

#[test]
fn deleting_the_list_removes_its_gifts_and_members_only() {
    let (mut conn, list, _u1, u2, _u3, _u4) = birthday();
    submit_socks(&mut conn, &list, &u2);
    let form = CreateList { name: s("Wedding"), users: vec![entry("u2")] };
    let answer = WebServer::create_list(&form, cookie("u1"), &mut conn);
    assert_eq!(answer.answer.ok(), Some(s("Success!")));
    let other = conn
        .lists_of_user(s("u1"))
        .into_iter()
        .find(|l| l.name == "Wedding")
        .unwrap()
        .uuid;
    let kept = submit_socks(&mut conn, &other, &u2);
    assert_eq!(conn.gift_rows().len(), 2);

    let answer = WebServer::delete_list(&DeleteList { uuid: list.clone() }, cookie("u1"), &mut conn);
    assert_eq!(answer.ok(), Some(s("Success!")));

    assert!(conn.gifts_of_list_user(list.clone(), u2.clone(), u2.clone()).is_empty());
    assert!(conn.users_of_list(list.clone(), s("u1")).is_empty());
    assert!(conn.member_rows().iter().all(|m| m.list_uuid != list));
    assert!(conn.list_gift_rows().iter().all(|p| p.list_uuid != list));
    assert!(matches!(conn.list_from_uuid(list.clone(), s("u1")), Err(Failure::NotFound)));

    let rows = conn.gift_rows();
    assert_eq!(rows.len(), 1);
    assert_eq!(rows[0].gift_uuid, kept);
    assert_eq!(rows[0].user_uuid, u2);
    let left = conn.gifts_of_list_user(other.clone(), u2.clone(), u2.clone());
    assert_eq!(left.len(), 1);
    assert_eq!(left[0].comment, "socks");
    assert_eq!(conn.users_of_list(other, s("u1")).len(), 2);
    assert_eq!(conn.user_rows().len(), 4);
}

#[test]
fn only_the_owner_deletes_a_list() {
    let (mut conn, list, _u1, u2, _u3, _u4) = birthday();
    submit_socks(&mut conn, &list, &u2);
    let answer = WebServer::delete_list(&DeleteList { uuid: list.clone() }, cookie(&u2), &mut conn);
    assert_eq!(answer.ok(), Some(s("Can't delete list you don't own")));
    assert_eq!(conn.gift_rows().len(), 1);
    assert_eq!(conn.list_rows().len(), 1);
    let answer = WebServer::delete_list(&DeleteList { uuid: s("nope") }, cookie(&u2), &mut conn);
    assert!(matches!(answer, Err(Failure::NotFound)));
}
