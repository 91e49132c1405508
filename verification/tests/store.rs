use giftlist::data::{Gift, List, User};
use giftlist::db::DbConn;
use giftlist::failure::Failure;
use giftlist::tables::{GiftRow, ListGiftRow, ListRow, MemberRow, UserRow};

fn s(text: &str) -> String {
    text.to_string()
}

fn user(uuid: &str, name: &str, can_create: bool) -> User {
    User {
        uuid: s(uuid),
        email: format!("{}@example.com", name),
        name: s(name),
        can_create,
        is_me: false,
    }
}

fn list(uuid: &str, name: &str, owner: &str) -> List {
    List { uuid: s(uuid), name: s(name), owner: s(owner), im_owner: false }
}

fn gift(uuid: &str, owner: &str, url: &str) -> Gift {
    Gift {
        uuid: s(uuid),
        owner: s(owner),
        url: s(url),
        comment: s("c"),
        claimed: true,
        claimed_by: Some(user("someone", "someone", false)),
        alternate_to_uuid: Some(s("other")),
    }
}

fn store() -> DbConn {
    let mut conn = DbConn::init_db();
    conn.create_user(user("u1", "ann", true), s("t1")).unwrap();
    conn.create_user(user("u2", "bea", false), s("t2")).unwrap();
    conn.create_user(user("u3", "cal", false), s("t3")).unwrap();
    conn.create_list(list("l1", "Birthday", "u1")).unwrap();
    conn.create_list(list("l2", "Wedding", "u3")).unwrap();
    conn.add_user_to_list(s("u2"), s("l1"));
    conn.add_user_to_list(s("u2"), s("l2"));
    conn.add_user_to_list(s("u3"), s("l1"));
    conn.create_gift(gift("g1", "u2", "http://1"), s("l1")).unwrap();
    conn.create_gift(gift("g2", "u2", "http://2"), s("l2")).unwrap();
    conn.create_gift(gift("g3", "u3", "http://3"), s("l1")).unwrap();
    conn.create_gift(gift("g4", "u1", "http://4"), s("l2")).unwrap();
    conn
}

fn gift_ids(conn: &DbConn) -> Vec<String> {
    conn.gift_rows().into_iter().map(|g| g.gift_uuid).collect()
}

fn placed_ids(conn: &DbConn) -> Vec<String> {
    conn.list_gift_rows().into_iter().map(|g| g.gift_uuid).collect()
}

#[test]
fn new_store_is_empty() {
    let conn = DbConn::init_db();
    assert!(conn.user_rows().is_empty());
    assert!(conn.list_rows().is_empty());
    assert!(conn.member_rows().is_empty());
    assert!(conn.gift_rows().is_empty());
    assert!(conn.list_gift_rows().is_empty());
}

#[test]
fn users_are_found_by_token_email_and_identifier() {
    let conn = store();
    assert_eq!(conn.user_uuid_from_auth_token(s("t2")).ok(), Some(s("u2")));
    assert!(matches!(conn.user_uuid_from_auth_token(s("nope")), Err(Failure::NotFound)));
    assert_eq!(conn.auth_token_from_user(s("u3")).ok(), Some(s("t3")));
    assert!(matches!(conn.auth_token_from_user(s("nope")), Err(Failure::NotFound)));
    let u = conn.user_from_email(s("bea@example.com")).ok().unwrap();
    assert_eq!(u.uuid, "u2");
    assert_eq!(u.name, "bea");
    assert_eq!(u.email, "bea@example.com");
    assert!(!u.is_me);
    assert!(matches!(conn.user_from_email(s("nobody@example.com")), Err(Failure::NotFound)));
    let u = conn.user_from_uuid(s("u1"), s("u1")).ok().unwrap();
    assert!(u.is_me);
    assert!(u.can_create);
    let u = conn.user_from_uuid(s("u1"), s("u2")).ok().unwrap();
    assert!(!u.is_me);
    assert!(matches!(conn.user_from_uuid(s("nope"), s("u1")), Err(Failure::NotFound)));
}

#[test]
fn taken_identifiers_are_refused() {
    let mut conn = store();
    assert!(matches!(conn.create_user(user("u1", "imp", false), s("tx")), Err(Failure::StoreFailure)));
    assert_eq!(conn.user_rows().len(), 3);
    assert!(matches!(conn.create_list(list("l1", "Other", "u2")), Err(Failure::StoreFailure)));
    assert_eq!(conn.list_rows().len(), 2);
    assert_eq!(conn.member_rows().len(), 5);
    assert!(matches!(conn.create_gift(gift("g1", "u3", "http://x"), s("l2")), Err(Failure::StoreFailure)));
    assert_eq!(conn.gift_rows().len(), 4);
    assert_eq!(conn.list_gift_rows().len(), 4);
}

#[test]
fn owner_becomes_member_with_the_list() {
    let conn = store();
    let members = conn.users_of_list(s("l2"), s("u3"));
    let names: Vec<&str> = members.iter().map(|u| u.name.as_str()).collect();
    assert_eq!(names, vec!["cal", "bea"]);
    assert!(members[0].is_me);
    assert!(!members[1].is_me);
}

#[test]
fn lists_of_a_user_are_tagged_with_ownership() {
    let conn = store();
    let lists = conn.lists_of_user(s("u3"));
    assert_eq!(lists.len(), 2);
    assert_eq!(lists[0].uuid, "l2");
    assert!(lists[0].im_owner);
    assert_eq!(lists[1].uuid, "l1");
    assert!(!lists[1].im_owner);
    assert_eq!(lists[1].owner, "u1");
    assert!(conn.lists_of_user(s("nobody")).is_empty());
    let l = conn.list_from_uuid(s("l1"), s("u1")).ok().unwrap();
    assert!(l.im_owner);
    assert_eq!(l.name, "Birthday");
    assert!(matches!(conn.list_from_uuid(s("nope"), s("u1")), Err(Failure::NotFound)));
}

#[test]
fn created_gift_is_unclaimed_whatever_was_handed_in() {
    let conn = store();
    let g = conn.gift_from_uuid(s("g1"), s("u3")).ok().unwrap();
    assert!(!g.claimed);
    assert!(g.claimed_by.is_none());
    assert_eq!(g.alternate_to_uuid, Some(s("other")));
    assert_eq!(g.owner, "u2");
    assert!(matches!(conn.gift_from_uuid(s("nope"), s("u3")), Err(Failure::NotFound)));
}

#[test]
fn gifts_are_listed_by_list_and_owner() {
    let conn = store();
    let gifts = conn.gifts_of_list_user(s("l1"), s("u2"), s("u3"));
    assert_eq!(gifts.len(), 1);
    assert_eq!(gifts[0].uuid, "g1");
    let gifts = conn.gifts_of_list_user(s("l2"), s("u2"), s("u3"));
    assert_eq!(gifts.len(), 1);
    assert_eq!(gifts[0].uuid, "g2");
    assert!(conn.gifts_of_list_user(s("l2"), s("u3"), s("u3")).is_empty());
}

#[test]
fn modify_gift_replaces_text_and_claim_but_not_owner_or_alternate() {
    let mut conn = store();
    let mut g = gift("g1", "intruder", "http://new");
    g.comment = s("new");
    g.claimed_by = Some(user("u3", "cal", false));
    g.alternate_to_uuid = None;
    conn.modify_gift(g);
    let rows = conn.gift_rows();
    assert_eq!(rows[0].gift_uuid, "g1");
    assert_eq!(rows[0].user_uuid, "u2");
    assert_eq!(rows[0].url, "http://new");
    assert_eq!(rows[0].comment, "new");
    assert!(rows[0].claimed);
    assert_eq!(rows[0].claimed_by, Some(s("u3")));
    assert_eq!(rows[0].alternate_to, Some(s("other")));
    assert_eq!(rows[1].url, "http://2");
}

#[test]
fn update_gift_details_leaves_the_claim() {
    let mut conn = store();
    let mut g = gift("g1", "u2", "http://1");
    g.claimed_by = Some(user("u3", "cal", false));
    conn.modify_gift(g);
    conn.update_gift_details(s("g1"), s("http://newer"), s("newer"));
    let rows = conn.gift_rows();
    assert_eq!(rows[0].url, "http://newer");
    assert_eq!(rows[0].comment, "newer");
    assert!(rows[0].claimed);
    assert_eq!(rows[0].claimed_by, Some(s("u3")));
}

#[test]
fn modify_user_and_list_replace_what_may_change() {
    let mut conn = store();
    conn.modify_user(User {
        uuid: s("u2"),
        email: s("b@example.org"),
        name: s("Beatrice"),
        can_create: true,
        is_me: true,
    });
    let rows = conn.user_rows();
    assert_eq!(rows[1].user_uuid, "u2");
    assert_eq!(rows[1].email, "b@example.org");
    assert_eq!(rows[1].name, "Beatrice");
    assert!(rows[1].can_create);
    assert_eq!(rows[1].auth_token, "t2");
    assert_eq!(rows[0].name, "ann");
    conn.modify_list(list("l1", "Jubilee", "someone-else"));
    let rows = conn.list_rows();
    assert_eq!(rows[0].name, "Jubilee");
    assert_eq!(rows[0].owner, "u1");
    assert_eq!(rows[1].name, "Wedding");
}

#[test]
fn delete_gift_removes_gift_and_placement() {
    let mut conn = store();
    conn.delete_gift(s("g2"));
    assert_eq!(gift_ids(&conn), vec!["g1", "g3", "g4"]);
    assert_eq!(placed_ids(&conn), vec!["g1", "g3", "g4"]);
    conn.delete_gift(s("nope"));
    assert_eq!(gift_ids(&conn), vec!["g1", "g3", "g4"]);
}

#[test]
fn delete_list_removes_what_is_on_it_and_nothing_else() {
    let mut conn = store();
    conn.delete_list(s("l1"));
    assert_eq!(gift_ids(&conn), vec!["g2", "g4"]);
    assert_eq!(placed_ids(&conn), vec!["g2", "g4"]);
    let lists: Vec<String> = conn.list_rows().into_iter().map(|l| l.list_uuid).collect();
    assert_eq!(lists, vec!["l2"]);
    assert!(conn.member_rows().iter().all(|m| m.list_uuid == "l2"));
    assert_eq!(conn.member_rows().len(), 2);
    assert_eq!(conn.user_rows().len(), 3);
}

#[test]
fn delete_user_removes_their_gifts_memberships_and_lists() {
    let mut conn = store();
    conn.delete_user(s("u3"));
    let users: Vec<String> = conn.user_rows().into_iter().map(|u| u.user_uuid).collect();
    assert_eq!(users, vec!["u1", "u2"]);
    let lists: Vec<String> = conn.list_rows().into_iter().map(|l| l.list_uuid).collect();
    assert_eq!(lists, vec!["l1"]);
    assert_eq!(gift_ids(&conn), vec!["g1"]);
    assert_eq!(placed_ids(&conn), vec!["g1"]);
    let members: Vec<(String, String)> =
        conn.member_rows().into_iter().map(|m| (m.list_uuid, m.user_uuid)).collect();
    assert_eq!(members, vec![(s("l1"), s("u1")), (s("l1"), s("u2"))]);
}

fn rows() -> (Vec<UserRow>, Vec<ListRow>, Vec<MemberRow>, Vec<GiftRow>, Vec<ListGiftRow>) {
    let conn = store();
    (conn.user_rows(), conn.list_rows(), conn.member_rows(), conn.gift_rows(), conn.list_gift_rows())
}

#[test]
fn rows_of_a_store_make_the_same_store() {
    let (u, l, m, g, p) = rows();
    let conn = DbConn::from_rows(u, l, m, g, p).unwrap();
    assert_eq!(conn.user_rows().len(), 3);
    assert_eq!(gift_ids(&conn), vec!["g1", "g2", "g3", "g4"]);
    assert_eq!(conn.gifts_of_list_user(s("l1"), s("u2"), s("u1")).len(), 1);
    assert_eq!(conn.user_uuid_from_auth_token(s("t1")).ok(), Some(s("u1")));
}

#[test]
fn rows_with_a_repeated_identifier_make_no_store() {
    let (mut u, l, m, g, p) = rows();
    let again = u[0].clone();
    u.push(again);
    assert!(DbConn::from_rows(u, l, m, g, p).is_none());
    let (u, mut l, m, g, p) = rows();
    let again = l[1].clone();
    l.push(again);
    assert!(DbConn::from_rows(u, l, m, g, p).is_none());
    let (u, l, m, mut g, p) = rows();
    let again = g[2].clone();
    g.push(again);
    assert!(DbConn::from_rows(u, l, m, g, p).is_none());
    let (u, l, m, g, mut p) = rows();
    let mut again = p[0].clone();
    again.list_uuid = s("l2");
    p.push(again);
    assert!(DbConn::from_rows(u, l, m, g, p).is_none());
}

#[test]
fn placement_without_its_gift_makes_no_store() {
    let (u, l, m, mut g, p) = rows();
    g.remove(0);
    assert!(DbConn::from_rows(u, l, m, g, p).is_none());
    let (u, l, m, g, mut p) = rows();
    p[0].user_uuid = s("u3");
    assert!(DbConn::from_rows(u, l, m, g, p).is_none());
}

#[test]
fn repeated_membership_is_accepted() {
    let (u, l, mut m, g, p) = rows();
    let again = m[0].clone();
    m.push(again);
    assert!(DbConn::from_rows(u, l, m, g, p).is_some());
}

#[test]
fn list_whose_owner_is_no_member_makes_no_store() {
    let (u, l, mut m, g, p) = rows();
    m.retain(|row| !(row.list_uuid == "l2" && row.user_uuid == "u3"));
    assert!(DbConn::from_rows(u, l, m, g, p).is_none());
}
