//! Claiming a gift and releasing it again.
//!
//! A gift is unclaimed or claimed by one user. Anybody but its owner may
//! claim an unclaimed gift; only the claimer may release it.

use crate::data::{Gift, GiftView, User, UserView};
use crate::db::DbConn;
use crate::failure::{outcome, Failure, FailureView};
use crate::seqs::{lemma_find_first_index, lemma_find_first_map, lemma_find_first_sound};
use crate::tables::{gift_has_uuid, gift_key, modify_gift_fn, user_has_uuid, Tables};
use crate::store_laws::lemma_with_gift_modified_wf;
use vstd::prelude::*;

verus! {

/// The flag and the claimer of a gift agree: it is claimed exactly where it
/// names a claimer.
pub open spec fn claim_state_ok(gift: GiftView) -> bool {
    gift.claimed <==> gift.claimed_by is Some
}

/// What claiming `gift` for `acting` gives.
pub open spec fn claim_of(gift: GiftView, acting: UserView) -> Result<GiftView, FailureView> {
    if gift.owner == acting.uuid {
        Err(FailureView::SelfClaimForbidden)
    } else if gift.claimed {
        Err(FailureView::AlreadyClaimed(gift.claimed_by))
    } else {
        Ok(GiftView { claimed: true, claimed_by: Some(acting), ..gift })
    }
}

/// `gift` names `acting` as its claimer.
pub open spec fn claimed_by_user(gift: GiftView, acting: UserView) -> bool {
    gift.claimed_by matches Some(u) && u.uuid == acting.uuid
}

/// What releasing `gift` for `acting` gives.
pub open spec fn unclaim_of(gift: GiftView, acting: UserView) -> Result<GiftView, FailureView> {
    if gift.owner == acting.uuid {
        Err(FailureView::SelfClaimForbidden)
    } else if !gift.claimed {
        Err(FailureView::NotClaimed)
    } else if !claimed_by_user(gift, acting) {
        Err(FailureView::ClaimedByOther(gift.claimed_by))
    } else {
        Ok(GiftView { claimed: false, claimed_by: None, ..gift })
    }
}

/// The gift as `acting_user` has claimed it, or why they may not.
pub fn mark_claimed(gift: Gift, acting_user: User) -> (r: Result<Gift, Failure>)
    ensures
        match r {
            Ok(g) => claim_of(gift@, acting_user@) == Ok::<GiftView, FailureView>(g@),
            Err(e) => claim_of(gift@, acting_user@) == Err::<GiftView, FailureView>(e@),
        },
{
    if gift.owner == acting_user.uuid {
        return Err(Failure::SelfClaimForbidden);
    }
    if gift.claimed {
        return Err(Failure::AlreadyClaimed(gift.claimed_by));
    }
    Ok(
        Gift {
            uuid: gift.uuid,
            owner: gift.owner,
            url: gift.url,
            comment: gift.comment,
            claimed: true,
            claimed_by: Some(acting_user),
            alternate_to_uuid: gift.alternate_to_uuid,
        },
    )
}

/// The gift as `acting_user` has released it, or why they may not.
pub fn mark_unclaimed(gift: Gift, acting_user: User) -> (r: Result<Gift, Failure>)
    ensures
        match r {
            Ok(g) => unclaim_of(gift@, acting_user@) == Ok::<GiftView, FailureView>(g@),
            Err(e) => unclaim_of(gift@, acting_user@) == Err::<GiftView, FailureView>(e@),
        },
{
    if gift.owner == acting_user.uuid {
        return Err(Failure::SelfClaimForbidden);
    }
    if !gift.claimed {
        return Err(Failure::NotClaimed);
    }
    let by_acting = match &gift.claimed_by {
        Some(u) => u.uuid == acting_user.uuid,
        None => false,
    };
    if !by_acting {
        return Err(Failure::ClaimedByOther(gift.claimed_by));
    }
    Ok(
        Gift {
            uuid: gift.uuid,
            owner: gift.owner,
            url: gift.url,
            comment: gift.comment,
            claimed: false,
            claimed_by: None,
            alternate_to_uuid: gift.alternate_to_uuid,
        },
    )
}

/// Claiming the gift `gift_uuid` for `acting` in the store `t`: the result
/// and the store afterwards. A failure leaves the store as it was.
pub open spec fn claim_in(t: Tables, gift_uuid: Seq<char>, acting: UserView) -> (Result<(), FailureView>, Tables) {
    match t.gift_by_uuid(gift_uuid) {
        None => (Err(FailureView::NotFound), t),
        Some(row) => match claim_of(t.gift_record(row, acting.uuid), acting) {
            Ok(g) => (Ok(()), t.with_gift_modified(g)),
            Err(e) => (Err(e), t),
        },
    }
}

/// Releasing the gift `gift_uuid` for `acting` in the store `t`: the result
/// and the store afterwards. A failure leaves the store as it was.
pub open spec fn unclaim_in(t: Tables, gift_uuid: Seq<char>, acting: UserView) -> (Result<(), FailureView>, Tables) {
    match t.gift_by_uuid(gift_uuid) {
        None => (Err(FailureView::NotFound), t),
        Some(row) => match unclaim_of(t.gift_record(row, acting.uuid), acting) {
            Ok(g) => (Ok(()), t.with_gift_modified(g)),
            Err(e) => (Err(e), t),
        },
    }
}

/// Claims the gift `gift_uuid` for `acting_user`.
pub fn claim(conn: &mut DbConn, gift_uuid: String, acting_user: User) -> (r: Result<(), Failure>)
    ensures
        (outcome(r), final(conn)@) == claim_in(old(conn)@, gift_uuid@, acting_user@),
        old(conn)@.wf() ==> final(conn)@.wf(),
        old(conn)@.claims_consistent() ==> final(conn)@.claims_consistent(),
{
    let gift = match conn.gift_from_uuid(gift_uuid, acting_user.uuid.clone()) {
        Ok(g) => g,
        Err(_) => {
            return Err(Failure::NotFound);
        },
    };
    proof {
        if old(conn)@.wf() {
            lemma_claims_keep_wf(old(conn)@, gift_uuid@, acting_user@);
        }
        if old(conn)@.claims_consistent() {
            lemma_claims_stay_consistent(old(conn)@, gift_uuid@, acting_user@);
        }
    }
    match mark_claimed(gift, acting_user) {
        Ok(g) => {
            conn.modify_gift(g);
            Ok(())
        },
        Err(e) => Err(e),
    }
}

/// Releases the gift `gift_uuid` for `acting_user`.
pub fn unclaim(conn: &mut DbConn, gift_uuid: String, acting_user: User) -> (r: Result<(), Failure>)
    ensures
        (outcome(r), final(conn)@) == unclaim_in(old(conn)@, gift_uuid@, acting_user@),
        old(conn)@.wf() ==> final(conn)@.wf(),
        old(conn)@.claims_consistent() ==> final(conn)@.claims_consistent(),
{
    let gift = match conn.gift_from_uuid(gift_uuid, acting_user.uuid.clone()) {
        Ok(g) => g,
        Err(_) => {
            return Err(Failure::NotFound);
        },
    };
    proof {
        if old(conn)@.wf() {
            lemma_claims_keep_wf(old(conn)@, gift_uuid@, acting_user@);
        }
        if old(conn)@.claims_consistent() {
            lemma_claims_stay_consistent(old(conn)@, gift_uuid@, acting_user@);
        }
    }
    match mark_unclaimed(gift, acting_user) {
        Ok(g) => {
            conn.modify_gift(g);
            Ok(())
        },
        Err(e) => Err(e),
    }
}

/// After a claim or a release that succeeds, the gift's flag and its claimer
/// agree.
pub proof fn lemma_claim_state_after(gift: GiftView, acting: UserView)
    ensures
        claim_of(gift, acting) matches Ok(g) ==> claim_state_ok(g),
        unclaim_of(gift, acting) matches Ok(g) ==> claim_state_ok(g),
{
}

/// A claim followed by a release by the same user gives the gift back as it
/// was.
pub proof fn lemma_claim_then_unclaim(gift: GiftView, acting: UserView)
    requires
        claim_state_ok(gift),
        claim_of(gift, acting) is Ok,
    ensures
        unclaim_of(claim_of(gift, acting)->Ok_0, acting) == Ok::<GiftView, FailureView>(gift),
{
}

/// The owner of a gift can neither claim it nor release it.
pub proof fn lemma_owner_cannot_claim(gift: GiftView, acting: UserView)
    requires
        acting.uuid == gift.owner,
    ensures
        claim_of(gift, acting) == Err::<GiftView, FailureView>(FailureView::SelfClaimForbidden),
        unclaim_of(gift, acting) == Err::<GiftView, FailureView>(FailureView::SelfClaimForbidden),
{
}

/// A claim or a release, whether it succeeds or not, leaves every gift of the
/// store claimed exactly where it names a claimer.
pub proof fn lemma_claims_stay_consistent(t: Tables, gift_uuid: Seq<char>, acting: UserView)
    requires
        t.claims_consistent(),
    ensures
        claim_in(t, gift_uuid, acting).1.claims_consistent(),
        unclaim_in(t, gift_uuid, acting).1.claims_consistent(),
{
}

/// A claim or a release keeps the store well formed.
pub proof fn lemma_claims_keep_wf(t: Tables, gift_uuid: Seq<char>, acting: UserView)
    requires
        t.wf(),
    ensures
        claim_in(t, gift_uuid, acting).1.wf(),
        unclaim_in(t, gift_uuid, acting).1.wf(),
{
    match t.gift_by_uuid(gift_uuid) {
        None => {},
        Some(row) => {
            let gift = t.gift_record(row, acting.uuid);
            match claim_of(gift, acting) {
                Ok(g) => {
                    lemma_with_gift_modified_wf(t, g);
                },
                Err(_) => {},
            }
            match unclaim_of(gift, acting) {
                Ok(g) => {
                    lemma_with_gift_modified_wf(t, g);
                },
                Err(_) => {},
            }
        },
    }
}

/// In the store too, the owner of a gift can neither claim it nor release
/// it, and the attempt changes nothing.
pub proof fn lemma_owner_cannot_claim_in(t: Tables, gift_uuid: Seq<char>, acting: UserView)
    requires
        t.gift_by_uuid(gift_uuid) matches Some(row) && row.user_uuid == acting.uuid,
    ensures
        claim_in(t, gift_uuid, acting) == (
            Err::<(), FailureView>(FailureView::SelfClaimForbidden),
            t,
        ),
        unclaim_in(t, gift_uuid, acting) == (
            Err::<(), FailureView>(FailureView::SelfClaimForbidden),
            t,
        ),
{
}

/// In the store, a claim followed at once by a release by the same user,
/// who is a user of the store, leaves the store as it was.
pub proof fn lemma_claim_then_unclaim_in(t: Tables, gift_uuid: Seq<char>, acting: UserView)
    requires
        t.gift_ids_distinct(),
        t.claims_consistent(),
        t.user_by_uuid(acting.uuid) is Some,
        claim_in(t, gift_uuid, acting).0 is Ok,
    ensures
        unclaim_in(claim_in(t, gift_uuid, acting).1, gift_uuid, acting) == (Ok::<(), FailureView>(()), t),
{
    let p = gift_has_uuid(gift_uuid);
    let k = lemma_find_first_index(t.gifts, p);
    let row = t.gifts[k];
    let claimed = claim_of(t.gift_record(row, acting.uuid), acting)->Ok_0;
    let t1 = t.with_gift_modified(claimed);
    let f1 = modify_gift_fn(claimed);
    assert(claim_in(t, gift_uuid, acting).1 == t1);
    lemma_find_first_map(t.gifts, p, f1);
    let row1 = f1(row);
    assert(t1.gift_by_uuid(gift_uuid) == Some(row1));
    lemma_find_first_sound(t.users, user_has_uuid(acting.uuid));
    let rec1 = t1.gift_record(row1, acting.uuid);
    assert(claimed_by_user(rec1, acting));
    let released = unclaim_of(rec1, acting)->Ok_0;
    let f2 = modify_gift_fn(released);
    let t2 = t1.with_gift_modified(released);
    assert forall|i: int| 0 <= i < t.gifts.len() implies #[trigger] t2.gifts[i] == t.gifts[i] by {
        if t.gifts[i].gift_uuid == gift_uuid {
            if i < k {
                assert(!p(t.gifts[i]));
            }
            assert(i == k);
        }
    }
    assert(t2.gifts =~= t.gifts);
}

/// Where no gift names its owner as its claimer, none does after a claim
/// or a release.
pub proof fn lemma_no_self_claims(t: Tables, gift_uuid: Seq<char>, acting: UserView)
    requires
        t.gift_ids_distinct(),
        t.no_self_claims(),
    ensures
        claim_in(t, gift_uuid, acting).1.no_self_claims(),
        unclaim_in(t, gift_uuid, acting).1.no_self_claims(),
{
    if t.gift_by_uuid(gift_uuid) is Some {
        let k = lemma_find_first_index(t.gifts, gift_has_uuid(gift_uuid));
        let claimed = claim_in(t, gift_uuid, acting).1;
        assert forall|i: int| 0 <= i < claimed.gifts.len() implies (
        #[trigger] claimed.gifts[i]).claimed_by != Some(claimed.gifts[i].user_uuid) by {
            assert(t.gifts[i].claimed_by != Some(t.gifts[i].user_uuid));
            if t.gifts[i].gift_uuid == gift_uuid {
                if i < k {
                    assert(gift_key()(t.gifts[i]) != gift_key()(t.gifts[k]));
                }
                if k < i {
                    assert(gift_key()(t.gifts[k]) != gift_key()(t.gifts[i]));
                }
            }
        }
        let released = unclaim_in(t, gift_uuid, acting).1;
        assert forall|i: int| 0 <= i < released.gifts.len() implies (
        #[trigger] released.gifts[i]).claimed_by != Some(released.gifts[i].user_uuid) by {
            assert(t.gifts[i].claimed_by != Some(t.gifts[i].user_uuid));
        }
    }
}

} // verus!
