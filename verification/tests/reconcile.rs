use giftlist::claim::claim;
use giftlist::data::{FormGift, Gift, List, User};
use giftlist::db::DbConn;
use giftlist::failure::Failure;
use giftlist::reconcile::{reconcile, reconcile_with, PlaceholderMap};
use giftlist::tables::GiftRow;

fn user(uuid: &str, name: &str) -> User {
    User {
        uuid: uuid.to_string(),
        email: format!("{}@example.com", name),
        name: name.to_string(),
        can_create: false,
        is_me: false,
    }
}

fn form(uuid: &str, url: &str, comment: &str, alt: &str) -> FormGift {
    FormGift {
        uuid: uuid.to_string(),
        url: url.to_string(),
        comment: comment.to_string(),
        alternate_to_uuid: alt.to_string(),
    }
}

fn store() -> DbConn {
    let mut conn = DbConn::init_db();
    for (uuid, name) in [("u1", "ann"), ("u2", "bea"), ("u3", "cal"), ("u9", "zed")] {
        conn.create_user(user(uuid, name), format!("token-{}", uuid)).unwrap();
    }
    for (uuid, name) in [("l1", "Birthday"), ("l2", "Wedding")] {
        conn.create_list(List {
            uuid: uuid.to_string(),
            name: name.to_string(),
            owner: "u1".to_string(),
            im_owner: true,
        })
        .unwrap();
        conn.add_user_to_list("u2".to_string(), uuid.to_string());
        conn.add_user_to_list("u3".to_string(), uuid.to_string());
    }
    conn
}

fn ids(names: &[&str]) -> Vec<String> {
    names.iter().map(|s| s.to_string()).collect()
}

fn s(text: &str) -> String {
    text.to_string()
}

fn row<'a>(rows: &'a [GiftRow], uuid: &str) -> &'a GiftRow {
    rows.iter().find(|g| g.gift_uuid == uuid).unwrap()
}

fn same_rows(a: &[GiftRow], b: &[GiftRow]) -> bool {
    a.len() == b.len()
        && a.iter().zip(b.iter()).all(|(x, y)| {
            x.gift_uuid == y.gift_uuid
                && x.user_uuid == y.user_uuid
                && x.url == y.url
                && x.comment == y.comment
                && x.claimed == y.claimed
                && x.claimed_by == y.claimed_by
                && x.alternate_to == y.alternate_to
        })
}

#[test]
fn new_gift_is_created_unclaimed_for_the_member() {
    let mut conn = store();
    let gifts = vec![form("", "http://x", "socks", "")];
    let r = reconcile_with(&mut conn, &s("l1"), &s("u2"), &gifts, &ids(&["id-1"]));
    assert!(r.is_ok());
    let rows = conn.gift_rows();
    assert_eq!(rows.len(), 1);
    assert_eq!(rows[0].gift_uuid, "id-1");
    assert_eq!(rows[0].user_uuid, "u2");
    assert_eq!(rows[0].url, "http://x");
    assert_eq!(rows[0].comment, "socks");
    assert!(!rows[0].claimed);
    assert!(rows[0].claimed_by.is_none());
    assert!(rows[0].alternate_to.is_none());
    let placed = conn.list_gift_rows();
    assert_eq!(placed.len(), 1);
    assert_eq!(placed[0].list_uuid, "l1");
    assert_eq!(placed[0].user_uuid, "u2");
    assert_eq!(placed[0].gift_uuid, "id-1");
}

#[test]
fn stranger_is_unauthorized_and_nothing_changes() {
    let mut conn = store();
    let gifts = vec![form("", "http://x", "socks", "")];
    let r = reconcile_with(&mut conn, &s("l1"), &s("u9"), &gifts, &ids(&["id-1"]));
    assert!(matches!(r, Err(Failure::Unauthorized)));
    assert!(conn.gift_rows().is_empty());
    assert!(conn.list_gift_rows().is_empty());
    let r = reconcile_with(&mut conn, &s("no-such-list"), &s("u2"), &gifts, &ids(&["id-1"]));
    assert!(matches!(r, Err(Failure::Unauthorized)));
    assert!(conn.gift_rows().is_empty());
}

#[test]
fn member_of_a_deleted_list_is_unauthorized() {
    let mut conn = store();
    conn.delete_list(s("l1"));
    conn.add_user_to_list(s("u2"), s("l1"));
    let gifts = vec![form("", "http://x", "socks", "")];
    let r = reconcile_with(&mut conn, &s("l1"), &s("u2"), &gifts, &ids(&["id-1"]));
    assert!(matches!(r, Err(Failure::Unauthorized)));
}

#[test]
fn forward_reference_is_resolved() {
    let mut conn = store();
    let gifts = vec![
        form("newRow-a", "http://a", "a", "newRow-b"),
        form("newRow-b", "http://b", "b", ""),
    ];
    let r = reconcile_with(&mut conn, &s("l1"), &s("u2"), &gifts, &ids(&["id-a", "id-b"]));
    assert!(r.is_ok());
    let rows = conn.gift_rows();
    assert_eq!(rows.len(), 2);
    assert_eq!(row(&rows, "id-a").alternate_to, Some(s("id-b")));
    assert_eq!(row(&rows, "id-b").alternate_to, None);
}

#[test]
fn backward_reference_is_resolved() {
    let mut conn = store();
    let gifts = vec![
        form("newRow-a", "http://a", "a", ""),
        form("", "http://b", "b", "newRow-a"),
    ];
    let r = reconcile_with(&mut conn, &s("l1"), &s("u2"), &gifts, &ids(&["id-a", "id-b"]));
    assert!(r.is_ok());
    let rows = conn.gift_rows();
    assert_eq!(row(&rows, "id-b").alternate_to, Some(s("id-a")));
}

#[test]
fn forward_reference_with_drawn_identifiers() {
    let mut conn = store();
    let gifts = vec![
        form("newRow-a", "http://a", "a", "newRow-b"),
        form("newRow-b", "http://b", "b", ""),
    ];
    assert!(reconcile(&mut conn, &s("l1"), &s("u2"), &gifts).is_ok());
    let rows = conn.gift_rows();
    assert_eq!(rows.len(), 2);
    let a = rows.iter().find(|g| g.url == "http://a").unwrap();
    let b = rows.iter().find(|g| g.url == "http://b").unwrap();
    assert_eq!(a.alternate_to.as_ref(), Some(&b.gift_uuid));
    assert_eq!(b.gift_uuid.len(), 36);
}

#[test]
fn reference_to_a_stored_gift_is_kept_as_it_is() {
    let mut conn = store();
    let gifts = vec![form("", "http://a", "a", "anything-at-all")];
    let r = reconcile_with(&mut conn, &s("l1"), &s("u2"), &gifts, &ids(&["id-a"]));
    assert!(r.is_ok());
    assert_eq!(conn.gift_rows()[0].alternate_to, Some(s("anything-at-all")));
}

#[test]
fn unknown_placeholder_is_an_error() {
    let mut conn = store();
    let gifts = vec![
        form("", "http://a", "a", ""),
        form("", "http://b", "b", "newRow-missing"),
        form("", "http://c", "c", ""),
    ];
    let r = reconcile_with(&mut conn, &s("l1"), &s("u2"), &gifts, &ids(&["id-a", "id-b", "id-c"]));
    assert!(matches!(r, Err(Failure::UnknownPlaceholder)));
    let rows = conn.gift_rows();
    assert_eq!(rows.len(), 1);
    assert_eq!(rows[0].gift_uuid, "id-a");
}

#[test]
fn resubmitting_the_stored_list_changes_nothing() {
    let mut conn = store();
    let gifts = vec![
        form("newRow-a", "http://a", "a", "newRow-b"),
        form("newRow-b", "http://b", "b", ""),
        form("", "http://c", "c", ""),
    ];
    reconcile_with(&mut conn, &s("l1"), &s("u2"), &gifts, &ids(&["id-a", "id-b", "id-c"])).unwrap();
    claim(&mut conn, s("id-b"), user("u3", "cal")).unwrap();
    let before = conn.gift_rows();
    let placed_before = conn.list_gift_rows().len();
    let current = conn.gifts_of_list_user(s("l1"), s("u2"), s("u2"));
    let again: Vec<FormGift> = current
        .iter()
        .map(|g: &Gift| FormGift {
            uuid: g.uuid.clone(),
            url: g.url.clone(),
            comment: g.comment.clone(),
            alternate_to_uuid: g.alternate_to_uuid.clone().unwrap_or_default(),
        })
        .collect();
    assert_eq!(again.len(), 3);
    let r = reconcile_with(&mut conn, &s("l1"), &s("u2"), &again, &ids(&["n1", "n2", "n3"]));
    assert!(r.is_ok());
    assert!(same_rows(&before, &conn.gift_rows()));
    assert_eq!(conn.list_gift_rows().len(), placed_before);
    let reversed: Vec<FormGift> = again.iter().rev().cloned().collect();
    let r = reconcile_with(&mut conn, &s("l1"), &s("u2"), &reversed, &ids(&["n1", "n2", "n3"]));
    assert!(r.is_ok());
    assert!(same_rows(&before, &conn.gift_rows()));
}

#[test]
fn left_out_gifts_are_deleted() {
    let mut conn = store();
    let gifts = vec![form("", "http://a", "a", ""), form("", "http://b", "b", "")];
    reconcile_with(&mut conn, &s("l1"), &s("u2"), &gifts, &ids(&["id-a", "id-b"])).unwrap();
    let gifts = vec![form("id-b", "http://b", "b", "")];
    reconcile_with(&mut conn, &s("l1"), &s("u2"), &gifts, &ids(&["unused"])).unwrap();
    let rows = conn.gift_rows();
    assert_eq!(rows.len(), 1);
    assert_eq!(rows[0].gift_uuid, "id-b");
    let placed = conn.list_gift_rows();
    assert_eq!(placed.len(), 1);
    assert_eq!(placed[0].gift_uuid, "id-b");
}

#[test]
fn empty_list_deletes_all_gifts_of_the_member_on_that_list_only() {
    let mut conn = store();
    reconcile_with(&mut conn, &s("l1"), &s("u2"), &vec![form("", "http://a", "a", "")], &ids(&["id-a"]))
        .unwrap();
    reconcile_with(&mut conn, &s("l2"), &s("u2"), &vec![form("", "http://b", "b", "")], &ids(&["id-b"]))
        .unwrap();
    reconcile_with(&mut conn, &s("l1"), &s("u3"), &vec![form("", "http://c", "c", "")], &ids(&["id-c"]))
        .unwrap();
    reconcile_with(&mut conn, &s("l1"), &s("u2"), &vec![], &vec![]).unwrap();
    let rows = conn.gift_rows();
    let left: Vec<&str> = rows.iter().map(|g| g.gift_uuid.as_str()).collect();
    assert_eq!(left, vec!["id-b", "id-c"]);
}

#[test]
fn update_replaces_url_and_comment_and_keeps_the_claim() {
    let mut conn = store();
    let gifts = vec![form("", "http://a", "a", "")];
    reconcile_with(&mut conn, &s("l1"), &s("u2"), &gifts, &ids(&["id-a"])).unwrap();
    claim(&mut conn, s("id-a"), user("u3", "cal")).unwrap();
    let gifts = vec![form("id-a", "http://new", "better", "ignored-on-update")];
    reconcile_with(&mut conn, &s("l1"), &s("u2"), &gifts, &ids(&["unused"])).unwrap();
    let rows = conn.gift_rows();
    assert_eq!(rows.len(), 1);
    assert_eq!(rows[0].url, "http://new");
    assert_eq!(rows[0].comment, "better");
    assert!(rows[0].claimed);
    assert_eq!(rows[0].claimed_by, Some(s("u3")));
    assert_eq!(rows[0].alternate_to, None);
    assert_eq!(rows[0].user_uuid, "u2");
}

#[test]
fn update_keeps_a_claim_by_a_user_who_is_gone() {
    let mut conn = store();
    reconcile_with(&mut conn, &s("l1"), &s("u2"), &vec![form("", "http://a", "a", "")], &ids(&["id-a"]))
        .unwrap();
    claim(&mut conn, s("id-a"), user("ghost", "nobody")).unwrap();
    let gifts = vec![form("id-a", "http://new", "better", "")];
    reconcile_with(&mut conn, &s("l1"), &s("u2"), &gifts, &ids(&["unused"])).unwrap();
    let rows = conn.gift_rows();
    assert!(rows[0].claimed);
    assert_eq!(rows[0].claimed_by, Some(s("ghost")));
}

#[test]
fn gift_of_another_member_is_forbidden_and_earlier_writes_stand() {
    let mut conn = store();
    reconcile_with(&mut conn, &s("l1"), &s("u3"), &vec![form("", "http://c", "c", "")], &ids(&["id-c"]))
        .unwrap();
    reconcile_with(&mut conn, &s("l1"), &s("u2"), &vec![form("", "http://old", "old", "")], &ids(&["id-old"]))
        .unwrap();
    let gifts = vec![
        form("", "http://a", "a", ""),
        form("id-c", "http://stolen", "mine now", ""),
        form("", "http://z", "z", ""),
    ];
    let r = reconcile_with(&mut conn, &s("l1"), &s("u2"), &gifts, &ids(&["id-a", "x", "id-z"]));
    assert!(matches!(r, Err(Failure::Forbidden)));
    let rows = conn.gift_rows();
    let left: Vec<&str> = rows.iter().map(|g| g.gift_uuid.as_str()).collect();
    assert_eq!(left, vec!["id-c", "id-a"]);
    assert_eq!(row(&rows, "id-c").url, "http://c");
    assert_eq!(row(&rows, "id-c").user_uuid, "u3");
}

#[test]
fn gift_that_does_not_exist_is_not_found() {
    let mut conn = store();
    let gifts = vec![form("no-such-gift", "http://a", "a", "")];
    let r = reconcile_with(&mut conn, &s("l1"), &s("u2"), &gifts, &ids(&["unused"]));
    assert!(matches!(r, Err(Failure::NotFound)));
    assert!(conn.gift_rows().is_empty());
}

#[test]
fn repeated_placeholder_is_a_store_failure() {
    let mut conn = store();
    let gifts = vec![
        form("newRow-a", "http://a", "a", ""),
        form("newRow-a", "http://b", "b", ""),
    ];
    let r = reconcile_with(&mut conn, &s("l1"), &s("u2"), &gifts, &ids(&["id-1", "id-2"]));
    assert!(matches!(r, Err(Failure::StoreFailure)));
    let rows = conn.gift_rows();
    assert_eq!(rows.len(), 1);
    assert_eq!(rows[0].gift_uuid, "id-2");
    assert_eq!(rows[0].url, "http://a");
}

#[test]
fn identifier_that_is_taken_is_a_store_failure() {
    let mut conn = store();
    reconcile_with(&mut conn, &s("l1"), &s("u3"), &vec![form("", "http://c", "c", "")], &ids(&["id-c"]))
        .unwrap();
    let r = reconcile_with(&mut conn, &s("l1"), &s("u2"), &vec![form("", "http://a", "a", "")], &ids(&["id-c"]));
    assert!(matches!(r, Err(Failure::StoreFailure)));
    assert_eq!(conn.gift_rows().len(), 1);
}

#[test]
fn gifts_are_listed_in_the_order_of_submission() {
    let mut conn = store();
    let gifts = vec![
        form("", "http://1", "one", ""),
        form("newRow-2", "http://2", "two", ""),
        form("", "http://3", "three", ""),
    ];
    reconcile_with(&mut conn, &s("l1"), &s("u2"), &gifts, &ids(&["a", "b", "c"])).unwrap();
    let listed = conn.gifts_of_list_user(s("l1"), s("u2"), s("u3"));
    let comments: Vec<&str> = listed.iter().map(|g| g.comment.as_str()).collect();
    assert_eq!(comments, vec!["one", "two", "three"]);
    assert!(listed.iter().all(|g| g.owner == "u2" && !g.claimed && g.claimed_by.is_none()));
}

#[test]
fn placeholder_map_keeps_the_last_entry_of_a_name() {
    let mut map = PlaceholderMap::new();
    assert_eq!(map.get(&s("newRow-1")), None);
    map.insert(s("newRow-1"), s("a"));
    map.insert(s("newRow-2"), s("b"));
    assert_eq!(map.get(&s("newRow-1")), Some(s("a")));
    assert_eq!(map.get(&s("newRow-2")), Some(s("b")));
    map.insert(s("newRow-1"), s("c"));
    assert_eq!(map.get(&s("newRow-1")), Some(s("c")));
    assert_eq!(map.get(&s("newRow-3")), None);
}

#[test]
fn after_a_call_the_listing_is_the_submitted_list() {
    let mut conn = store();
    let first = vec![
        form("", "http://a", "a", ""),
        form("", "http://b", "b", ""),
        form("", "http://c", "c", ""),
    ];
    reconcile_with(&mut conn, &s("l1"), &s("u2"), &first, &ids(&["id-a", "id-b", "id-c"])).unwrap();
    reconcile_with(&mut conn, &s("l1"), &s("u3"), &vec![form("", "http://o", "o", "")], &ids(&["id-o"]))
        .unwrap();
    let second = vec![
        form("id-c", "http://c2", "c2", ""),
        form("newRow-1", "http://d", "d", "id-c"),
        form("id-a", "http://a", "a", "newRow-1"),
    ];
    reconcile_with(&mut conn, &s("l1"), &s("u2"), &second, &ids(&["x", "id-d", "y"])).unwrap();
    let listed = conn.gifts_of_list_user(s("l1"), s("u2"), s("u1"));
    let mut seen: Vec<(String, String, String)> =
        listed.iter().map(|g| (g.uuid.clone(), g.url.clone(), g.comment.clone())).collect();
    seen.sort();
    assert_eq!(
        seen,
        vec![
            (s("id-a"), s("http://a"), s("a")),
            (s("id-c"), s("http://c2"), s("c2")),
            (s("id-d"), s("http://d"), s("d")),
        ]
    );
    let d = listed.iter().find(|g| g.uuid == "id-d").unwrap();
    assert_eq!(d.alternate_to_uuid, Some(s("id-c")));
    assert!(matches!(conn.gift_from_uuid(s("id-b"), s("u1")), Err(Failure::NotFound)));
    let others = conn.gifts_of_list_user(s("l1"), s("u3"), s("u1"));
    assert_eq!(others.len(), 1);
    assert_eq!(others[0].uuid, "id-o");
    assert_eq!(others[0].url, "http://o");
}
