use giftlist::claim::{claim, mark_claimed, mark_unclaimed, unclaim};
use giftlist::data::{Gift, List, User};
use giftlist::db::DbConn;
use giftlist::failure::Failure;

fn user(uuid: &str, name: &str) -> User {
    User {
        uuid: uuid.to_string(),
        email: format!("{}@example.com", name),
        name: name.to_string(),
        can_create: false,
        is_me: false,
    }
}

fn gift(uuid: &str, owner: &str) -> Gift {
    Gift {
        uuid: uuid.to_string(),
        owner: owner.to_string(),
        url: "http://x".to_string(),
        comment: "socks".to_string(),
        claimed: false,
        claimed_by: None,
        alternate_to_uuid: None,
    }
}

fn store() -> DbConn {
    let mut conn = DbConn::init_db();
    for (uuid, name) in [("u1", "ann"), ("u2", "bea"), ("u3", "cal"), ("u4", "dan")] {
        conn.create_user(user(uuid, name), format!("token-{}", uuid)).unwrap();
    }
    conn.create_list(List {
        uuid: "l1".to_string(),
        name: "Birthday".to_string(),
        owner: "u1".to_string(),
        im_owner: true,
    })
    .unwrap();
    conn.add_user_to_list("u2".to_string(), "l1".to_string());
    conn.add_user_to_list("u3".to_string(), "l1".to_string());
    conn.create_gift(gift("g1", "u2"), "l1".to_string()).unwrap();
    conn
}

fn stored(conn: &DbConn, uuid: &str) -> (bool, Option<String>) {
    let rows = conn.gift_rows();
    let row = rows.iter().find(|g| g.gift_uuid == uuid).unwrap();
    (row.claimed, row.claimed_by.clone())
}

#[test]
fn owner_cannot_claim_own_gift() {
    let r = mark_claimed(gift("g1", "u2"), user("u2", "bea"));
    assert!(matches!(r, Err(Failure::SelfClaimForbidden)));
    let r = mark_unclaimed(gift("g1", "u2"), user("u2", "bea"));
    assert!(matches!(r, Err(Failure::SelfClaimForbidden)));
}

#[test]
fn owner_cannot_release_a_gift_that_another_claimed() {
    let mut g = gift("g1", "u2");
    g.claimed = true;
    g.claimed_by = Some(user("u3", "cal"));
    let r = mark_unclaimed(g, user("u2", "bea"));
    assert!(matches!(r, Err(Failure::SelfClaimForbidden)));
}

#[test]
fn claim_sets_flag_and_claimer() {
    let g = mark_claimed(gift("g1", "u2"), user("u3", "cal")).ok().unwrap();
    assert!(g.claimed);
    assert_eq!(g.claimed_by.as_ref().unwrap().uuid, "u3");
    assert_eq!(g.uuid, "g1");
    assert_eq!(g.owner, "u2");
    assert_eq!(g.url, "http://x");
    assert_eq!(g.comment, "socks");
    assert!(g.alternate_to_uuid.is_none());
}

#[test]
fn claimed_gift_cannot_be_claimed_again() {
    let g = mark_claimed(gift("g1", "u2"), user("u3", "cal")).ok().unwrap();
    match mark_claimed(g, user("u4", "dan")) {
        Err(Failure::AlreadyClaimed(Some(by))) => {
            assert_eq!(by.uuid, "u3");
            assert_eq!(by.name, "cal");
        }
        _ => panic!("expected AlreadyClaimed"),
    }
}

#[test]
fn claimer_cannot_claim_twice() {
    let g = mark_claimed(gift("g1", "u2"), user("u3", "cal")).ok().unwrap();
    assert!(matches!(mark_claimed(g, user("u3", "cal")), Err(Failure::AlreadyClaimed(Some(_)))));
}

#[test]
fn unclaimed_gift_cannot_be_released() {
    let r = mark_unclaimed(gift("g1", "u2"), user("u3", "cal"));
    assert!(matches!(r, Err(Failure::NotClaimed)));
}

#[test]
fn only_the_claimer_releases() {
    let g = mark_claimed(gift("g1", "u2"), user("u3", "cal")).ok().unwrap();
    match mark_unclaimed(g, user("u4", "dan")) {
        Err(Failure::ClaimedByOther(Some(by))) => assert_eq!(by.uuid, "u3"),
        _ => panic!("expected ClaimedByOther"),
    }
}

#[test]
fn claimed_without_known_claimer_is_claimed_by_other() {
    let mut g = gift("g1", "u2");
    g.claimed = true;
    assert!(matches!(mark_unclaimed(g, user("u3", "cal")), Err(Failure::ClaimedByOther(None))));
    let mut g = gift("g1", "u2");
    g.claimed = true;
    assert!(matches!(mark_claimed(g, user("u3", "cal")), Err(Failure::AlreadyClaimed(None))));
}

#[test]
fn claim_then_unclaim_restores_the_gift() {
    let before = gift("g1", "u2");
    let claimed = mark_claimed(gift("g1", "u2"), user("u3", "cal")).ok().unwrap();
    let after = mark_unclaimed(claimed, user("u3", "cal")).ok().unwrap();
    assert_eq!(after.uuid, before.uuid);
    assert_eq!(after.owner, before.owner);
    assert_eq!(after.url, before.url);
    assert_eq!(after.comment, before.comment);
    assert_eq!(after.claimed, before.claimed);
    assert!(after.claimed_by.is_none());
    assert_eq!(after.alternate_to_uuid, before.alternate_to_uuid);
}

#[test]
fn flag_and_claimer_agree_after_each_operation() {
    let g = mark_claimed(gift("g1", "u2"), user("u3", "cal")).ok().unwrap();
    assert_eq!(g.claimed, g.claimed_by.is_some());
    let g = mark_unclaimed(g, user("u3", "cal")).ok().unwrap();
    assert_eq!(g.claimed, g.claimed_by.is_some());
}

#[test]
fn store_claim_persists() {
    let mut conn = store();
    assert!(claim(&mut conn, "g1".to_string(), user("u3", "cal")).is_ok());
    assert_eq!(stored(&conn, "g1"), (true, Some("u3".to_string())));
    let shown = conn.gift_from_uuid("g1".to_string(), "u3".to_string()).ok().unwrap();
    assert!(shown.claimed);
    let by = shown.claimed_by.unwrap();
    assert_eq!(by.uuid, "u3");
    assert_eq!(by.name, "cal");
    assert_eq!(by.email, "");
    assert!(by.is_me);
    assert!(!by.can_create);
}

#[test]
fn store_claim_of_missing_gift_is_not_found() {
    let mut conn = store();
    assert!(matches!(claim(&mut conn, "nope".to_string(), user("u3", "cal")), Err(Failure::NotFound)));
    assert!(matches!(unclaim(&mut conn, "nope".to_string(), user("u3", "cal")), Err(Failure::NotFound)));
}

#[test]
fn store_failed_claim_changes_nothing() {
    let mut conn = store();
    assert!(matches!(
        claim(&mut conn, "g1".to_string(), user("u2", "bea")),
        Err(Failure::SelfClaimForbidden)
    ));
    assert_eq!(stored(&conn, "g1"), (false, None));
    claim(&mut conn, "g1".to_string(), user("u3", "cal")).unwrap();
    assert!(matches!(
        claim(&mut conn, "g1".to_string(), user("u4", "dan")),
        Err(Failure::AlreadyClaimed(Some(_)))
    ));
    assert_eq!(stored(&conn, "g1"), (true, Some("u3".to_string())));
    assert!(matches!(
        unclaim(&mut conn, "g1".to_string(), user("u4", "dan")),
        Err(Failure::ClaimedByOther(Some(_)))
    ));
    assert_eq!(stored(&conn, "g1"), (true, Some("u3".to_string())));
}

#[test]
fn store_claim_then_unclaim_restores_the_store() {
    let mut conn = store();
    let before = conn.gift_rows();
    claim(&mut conn, "g1".to_string(), user("u3", "cal")).unwrap();
    unclaim(&mut conn, "g1".to_string(), user("u3", "cal")).unwrap();
    let after = conn.gift_rows();
    assert_eq!(before.len(), after.len());
    for (b, a) in before.iter().zip(after.iter()) {
        assert_eq!(b.gift_uuid, a.gift_uuid);
        assert_eq!(b.user_uuid, a.user_uuid);
        assert_eq!(b.url, a.url);
        assert_eq!(b.comment, a.comment);
        assert_eq!(b.claimed, a.claimed);
        assert_eq!(b.claimed_by, a.claimed_by);
        assert_eq!(b.alternate_to, a.alternate_to);
    }
}

#[test]
fn store_unclaim_with_unknown_claimer_is_claimed_by_other() {
    let mut conn = store();
    claim(&mut conn, "g1".to_string(), user("ghost", "nobody")).unwrap();
    assert_eq!(stored(&conn, "g1"), (true, Some("ghost".to_string())));
    assert!(matches!(
        unclaim(&mut conn, "g1".to_string(), user("ghost", "nobody")),
        Err(Failure::ClaimedByOther(None))
    ));
}
