//! What holds of replacing a gift list: what a call that succeeds has
//! achieved, what no call touches, and what a call leaves as it is.

use crate::data::{FormGiftView, GiftView};
use crate::ident::{is_placeholder, needs_new_id};
use crate::reconcile::{
    delete_stale_upto, is_member, lemma_delete_stale_keeps, lemma_upsert_keeps, lemma_upsert_stops,
    new_gift, new_id, placeholder_map, reconcile_of, resolve_alternate, submitted, upsert_one,
    upsert_upto,
};
use crate::seqs::{
    lemma_filter_keeps_first, lemma_filter_map_has, lemma_filter_member, lemma_find_first_index,
    lemma_find_first_map, lemma_find_first_none, lemma_find_first_push, lemma_find_first_sound,
};
use crate::tables::{
    gift_details_fn, gift_has_uuid, gift_key, list_has_uuid, member_is, new_gift_row, GiftRowView,
    ListGiftRowView, MemberRowView, Tables,
};
use crate::store_laws::{lemma_removals_keep_placed, lemma_with_gift_keeps_placed};
use vstd::prelude::*;

verus! {

/// The stored gifts `current` hold a gift with the identifier, url and
/// comment of the submitted gift `g`.
pub open spec fn stored_as(current: Seq<GiftView>, g: FormGiftView) -> bool {
    exists|j: int|
        0 <= j < current.len() && (#[trigger] current[j]).uuid == g.uuid && current[j].url == g.url
            && current[j].comment == g.comment
}

/// `gifts` is the list `current` submitted again: every submitted gift is a
/// stored one with its url and comment, and every stored gift is submitted.
pub open spec fn resubmits(current: Seq<GiftView>, gifts: Seq<FormGiftView>) -> bool {
    &&& forall|i: int| 0 <= i < gifts.len() ==> #[trigger] stored_as(current, gifts[i])
    &&& forall|j: int| 0 <= j < current.len() ==> #[trigger] submitted(gifts, current[j].uuid)
}

/// A gift that the store lists for `acting` on `list` has a row under its
/// identifier, with its url and comment, owned by `acting`.
proof fn lemma_stored_gift(t: Tables, list: Seq<char>, acting: Seq<char>, g: GiftView)
    requires
        t.wf(),
        t.gifts_of_list_user(list, acting, acting).contains(g),
    ensures
        t.gift_by_uuid(g.uuid) matches Some(row) && row.user_uuid == acting && row.url == g.url
            && row.comment == g.comment,
{
    let f = t.gift_of_placement_fn(list, acting, acting);
    t.list_gifts.lemma_filter_map_contains(f, g);
    let p = choose|p: ListGiftRowView| #[trigger]
        t.list_gifts.contains(p) && f(p) == Some(g);
    let i = choose|i: int| 0 <= i < t.list_gifts.len() && t.list_gifts[i] == p;
    assert(t.list_gifts[i] == p);
    lemma_find_first_sound(t.gifts, gift_has_uuid(p.gift_uuid));
}

/// Writing to a gift the url and comment that it has changes nothing.
proof fn lemma_same_details(t: Tables, uuid: Seq<char>, url: Seq<char>, comment: Seq<char>)
    requires
        t.gift_ids_distinct(),
        t.gift_by_uuid(uuid) matches Some(row) && row.url == url && row.comment == comment,
    ensures
        t.with_gift_details(uuid, url, comment) == t,
{
    let p = gift_has_uuid(uuid);
    let k = lemma_find_first_index(t.gifts, p);
    let f = gift_details_fn(uuid, url, comment);
    assert forall|i: int| 0 <= i < t.gifts.len() implies f(#[trigger] t.gifts[i]) == t.gifts[i] by {
        if t.gifts[i].gift_uuid == uuid {
            if i < k {
                assert(!p(t.gifts[i]));
            }
            assert(i == k);
        }
    }
    assert(t.gifts.map_values(f) =~= t.gifts);
}

proof fn lemma_nothing_stale(t: Tables, existing: Seq<GiftView>, gifts: Seq<FormGiftView>, n: nat)
    requires
        n <= existing.len(),
        forall|j: int| 0 <= j < existing.len() ==> #[trigger] submitted(gifts, existing[j].uuid),
    ensures
        delete_stale_upto(t, existing, gifts, n) == t,
    decreases n,
{
    if n > 0 {
        lemma_nothing_stale(t, existing, gifts, (n - 1) as nat);
        assert(submitted(gifts, existing[n - 1].uuid));
    }
}

proof fn lemma_resubmitted_upserts(
    t: Tables,
    list: Seq<char>,
    acting: Seq<char>,
    gifts: Seq<FormGiftView>,
    minted: Seq<Seq<char>>,
    map: Map<Seq<char>, Seq<char>>,
    n: nat,
)
    requires
        t.wf(),
        n <= gifts.len(),
        forall|i: int|
            0 <= i < gifts.len() ==> #[trigger] stored_as(
                t.gifts_of_list_user(list, acting, acting),
                gifts[i],
            ),
        forall|i: int| 0 <= i < gifts.len() ==> !needs_new_id(#[trigger] gifts[i].uuid),
    ensures
        upsert_upto(t, list, acting, gifts, minted, map, n).1 == t,
        (forall|i: int| 0 <= i < n ==> !is_placeholder(#[trigger] gifts[i].alternate_to_uuid))
            ==> upsert_upto(t, list, acting, gifts, minted, map, n).0 is Ok,
    decreases n,
{
    if n > 0 {
        lemma_resubmitted_upserts(t, list, acting, gifts, minted, map, (n - 1) as nat);
        let g = gifts[n - 1];
        let current = t.gifts_of_list_user(list, acting, acting);
        assert(stored_as(current, g));
        let j = choose|j: int|
            0 <= j < current.len() && (#[trigger] current[j]).uuid == g.uuid && current[j].url
                == g.url && current[j].comment == g.comment;
        assert(current.contains(current[j]));
        lemma_stored_gift(t, list, acting, current[j]);
        lemma_same_details(t, g.uuid, g.url, g.comment);
        assert(!needs_new_id(gifts[n - 1].uuid));
        if forall|i: int| 0 <= i < n ==> !is_placeholder(#[trigger] gifts[i].alternate_to_uuid) {
            assert(!is_placeholder(gifts[n - 1].alternate_to_uuid));
        }
    }
}

/// Submitting a member's gifts as they are stored changes nothing in the
/// store: where every stored gift of the member on the list has a durable
/// identifier, and the submitted list names exactly those gifts with their
/// urls and comments, no row is created, changed or deleted. The call
/// succeeds where the member belongs to the list and no alternate-to field
/// holds a placeholder.
pub proof fn lemma_resubmission_changes_nothing(
    t: Tables,
    list: Seq<char>,
    acting: Seq<char>,
    gifts: Seq<FormGiftView>,
    minted: Seq<Seq<char>>,
)
    requires
        t.wf(),
        resubmits(t.gifts_of_list_user(list, acting, acting), gifts),
        forall|j: int|
            0 <= j < t.gifts_of_list_user(list, acting, acting).len() ==> !needs_new_id(
                #[trigger] t.gifts_of_list_user(list, acting, acting)[j].uuid,
            ),
    ensures
        reconcile_of(t, list, acting, gifts, minted).1 == t,
        is_member(t, acting, list) && (forall|i: int|
            0 <= i < gifts.len() ==> !is_placeholder(#[trigger] gifts[i].alternate_to_uuid))
            ==> reconcile_of(t, list, acting, gifts, minted).0 is Ok,
{
    let current = t.gifts_of_list_user(list, acting, acting);
    if is_member(t, acting, list) {
        let map = placeholder_map(gifts, minted, gifts.len());
        lemma_nothing_stale(t, current, gifts, current.len());
        assert forall|i: int| 0 <= i < gifts.len() implies !needs_new_id(
            #[trigger] gifts[i].uuid,
        ) by {
            assert(stored_as(current, gifts[i]));
            let j = choose|j: int|
                0 <= j < current.len() && (#[trigger] current[j]).uuid == gifts[i].uuid
                    && current[j].url == gifts[i].url && current[j].comment == gifts[i].comment;
            assert(!needs_new_id(current[j].uuid));
        }
        lemma_resubmitted_upserts(t, list, acting, gifts, minted, map, gifts.len());
    }
}

/// A pass that succeeds has succeeded at every gift on the way.
proof fn lemma_upsert_ok_before(
    t: Tables,
    list: Seq<char>,
    acting: Seq<char>,
    gifts: Seq<FormGiftView>,
    minted: Seq<Seq<char>>,
    map: Map<Seq<char>, Seq<char>>,
    k: nat,
    n: nat,
)
    requires
        k <= n,
        upsert_upto(t, list, acting, gifts, minted, map, n).0 is Ok,
    ensures
        upsert_upto(t, list, acting, gifts, minted, map, k).0 is Ok,
{
    if upsert_upto(t, list, acting, gifts, minted, map, k).0 is Err {
        lemma_upsert_stops(t, list, acting, gifts, minted, map, k, n);
    }
}

/// A gift that the pass has created is still stored under its identifier
/// when the pass has gone on, with the alternate it was created with.
proof fn lemma_created_gift_stays(
    t: Tables,
    list: Seq<char>,
    acting: Seq<char>,
    gifts: Seq<FormGiftView>,
    minted: Seq<Seq<char>>,
    map: Map<Seq<char>, Seq<char>>,
    n: nat,
    i: int,
)
    requires
        n <= gifts.len(),
        0 <= i < n,
        needs_new_id(gifts[i].uuid),
        upsert_upto(t, list, acting, gifts, minted, map, n).0 is Ok,
    ensures
        resolve_alternate(gifts[i].alternate_to_uuid, map) is Ok,
        upsert_upto(t, list, acting, gifts, minted, map, n).1.gift_by_uuid(
            new_id(gifts[i], minted[i], map),
        ) matches Some(row) && row.alternate_to == resolve_alternate(
            gifts[i].alternate_to_uuid,
            map,
        )->Ok_0 && row.user_uuid == acting,
    decreases n,
{
    let before = upsert_upto(t, list, acting, gifts, minted, map, (n - 1) as nat);
    let g = gifts[n - 1];
    let id = new_id(gifts[i], minted[i], map);
    assert(before.0 is Ok);
    if i == n - 1 {
        let alt = resolve_alternate(g.alternate_to_uuid, map)->Ok_0;
        lemma_find_first_push(
            before.1.gifts,
            new_gift_row(new_gift(id, acting, g, alt)),
            gift_has_uuid(id),
        );
    } else {
        lemma_created_gift_stays(t, list, acting, gifts, minted, map, (n - 1) as nat, i);
        if needs_new_id(g.uuid) {
            let alt = resolve_alternate(g.alternate_to_uuid, map)->Ok_0;
            lemma_find_first_push(
                before.1.gifts,
                new_gift_row(new_gift(new_id(g, minted[n - 1], map), acting, g, alt)),
                gift_has_uuid(id),
            );
        } else {
            lemma_find_first_map(
                before.1.gifts,
                gift_has_uuid(id),
                gift_details_fn(g.uuid, g.url, g.comment),
            );
        }
    }
}

/// In a pass that succeeds no two gifts carry the same placeholder.
proof fn lemma_placeholders_differ(
    t: Tables,
    list: Seq<char>,
    acting: Seq<char>,
    gifts: Seq<FormGiftView>,
    minted: Seq<Seq<char>>,
    map: Map<Seq<char>, Seq<char>>,
    i: int,
    j: int,
)
    requires
        0 <= i < j < gifts.len(),
        is_placeholder(gifts[i].uuid),
        upsert_upto(t, list, acting, gifts, minted, map, gifts.len()).0 is Ok,
    ensures
        gifts[i].uuid != gifts[j].uuid,
{
    if gifts[i].uuid == gifts[j].uuid {
        lemma_upsert_ok_before(t, list, acting, gifts, minted, map, (j + 1) as nat, gifts.len());
        lemma_upsert_ok_before(t, list, acting, gifts, minted, map, j as nat, gifts.len());
        lemma_created_gift_stays(t, list, acting, gifts, minted, map, j as nat, i);
        assert(upsert_upto(t, list, acting, gifts, minted, map, (j + 1) as nat).0 is Err);
    }
}

/// A placeholder is mapped to the identifier minted for the last gift that
/// carries it.
proof fn lemma_placeholder_maps_to_last(gifts: Seq<FormGiftView>, minted: Seq<Seq<char>>, n: nat, b: int)
    requires
        0 <= b < n <= gifts.len(),
        is_placeholder(gifts[b].uuid),
        forall|j: int| b < j < n ==> (#[trigger] gifts[j]).uuid != gifts[b].uuid,
    ensures
        placeholder_map(gifts, minted, n).contains_key(gifts[b].uuid),
        placeholder_map(gifts, minted, n)[gifts[b].uuid] == minted[b],
    decreases n,
{
    if b < n - 1 {
        assert(gifts[n - 1].uuid != gifts[b].uuid);
        lemma_placeholder_maps_to_last(gifts, minted, (n - 1) as nat, b);
    }
}

/// A reference to a gift of the same submitted list is resolved, wherever in
/// the list that gift stands. Where a call succeeds, and the new gift
/// `gifts[a]` names as the gift it is an alternate to the placeholder of the
/// new gift `gifts[b]`, then afterwards both are stored under the
/// identifiers minted for them, and the first names the identifier of the
/// second.
pub proof fn lemma_forward_reference(
    t: Tables,
    list: Seq<char>,
    acting: Seq<char>,
    gifts: Seq<FormGiftView>,
    minted: Seq<Seq<char>>,
    a: int,
    b: int,
)
    requires
        minted.len() == gifts.len(),
        0 <= a < gifts.len(),
        0 <= b < gifts.len(),
        needs_new_id(gifts[a].uuid),
        is_placeholder(gifts[b].uuid),
        gifts[a].alternate_to_uuid == gifts[b].uuid,
        reconcile_of(t, list, acting, gifts, minted).0 is Ok,
    ensures
        reconcile_of(t, list, acting, gifts, minted).1.gift_by_uuid(minted[b]) is Some,
        reconcile_of(t, list, acting, gifts, minted).1.gift_by_uuid(minted[a]) matches Some(row)
            && row.alternate_to == Some(minted[b]),
{
    let map = placeholder_map(gifts, minted, gifts.len());
    let existing = t.gifts_of_list_user(list, acting, acting);
    let kept = delete_stale_upto(t, existing, gifts, existing.len());
    assert(upsert_upto(kept, list, acting, gifts, minted, map, gifts.len()).0 is Ok);
    assert forall|j: int| b < j < gifts.len() implies (#[trigger] gifts[j]).uuid
        != gifts[b].uuid by {
        lemma_placeholders_differ(kept, list, acting, gifts, minted, map, b, j);
    }
    lemma_placeholder_maps_to_last(gifts, minted, gifts.len(), b);
    if is_placeholder(gifts[a].uuid) {
        assert forall|j: int| a < j < gifts.len() implies (#[trigger] gifts[j]).uuid
            != gifts[a].uuid by {
            lemma_placeholders_differ(kept, list, acting, gifts, minted, map, a, j);
        }
        lemma_placeholder_maps_to_last(gifts, minted, gifts.len(), a);
    }
    lemma_created_gift_stays(kept, list, acting, gifts, minted, map, gifts.len(), a);
    lemma_created_gift_stays(kept, list, acting, gifts, minted, map, gifts.len(), b);
}

/// The gift `x` is new and unclaimed, or it is a gift of `t` with its
/// owner, its claim and its alternate as they are in `t`.
pub open spec fn new_or_as_in(t: Tables, x: GiftRowView) -> bool {
    ||| (!x.claimed && x.claimed_by is None)
    ||| exists|k: int|
        0 <= k < t.gifts.len() && (#[trigger] t.gifts[k]).gift_uuid == x.gift_uuid
            && t.gifts[k].user_uuid == x.user_uuid && t.gifts[k].claimed == x.claimed
            && t.gifts[k].claimed_by == x.claimed_by && t.gifts[k].alternate_to == x.alternate_to
}

/// Every gift of `after` is new and unclaimed, or as it is in `t`.
pub open spec fn all_new_or_as_in(t: Tables, after: Tables) -> bool {
    forall|i: int| 0 <= i < after.gifts.len() ==> new_or_as_in(t, #[trigger] after.gifts[i])
}

proof fn lemma_upsert_keeps_claims(
    t: Tables,
    start: Tables,
    list: Seq<char>,
    acting: Seq<char>,
    gifts: Seq<FormGiftView>,
    minted: Seq<Seq<char>>,
    map: Map<Seq<char>, Seq<char>>,
    n: nat,
)
    requires
        all_new_or_as_in(t, start),
    ensures
        all_new_or_as_in(t, upsert_upto(start, list, acting, gifts, minted, map, n).1),
    decreases n,
{
    if n > 0 {
        lemma_upsert_keeps_claims(t, start, list, acting, gifts, minted, map, (n - 1) as nat);
        let before = upsert_upto(start, list, acting, gifts, minted, map, (n - 1) as nat);
        let after = upsert_upto(start, list, acting, gifts, minted, map, n).1;
        assert forall|i: int| 0 <= i < after.gifts.len() implies new_or_as_in(
            t,
            #[trigger] after.gifts[i],
        ) by {
            if i < before.1.gifts.len() {
                assert(new_or_as_in(t, before.1.gifts[i]));
            }
        }
    }
}

proof fn lemma_delete_stale_keeps_claims(
    t: Tables,
    existing: Seq<GiftView>,
    gifts: Seq<FormGiftView>,
    n: nat,
)
    ensures
        all_new_or_as_in(t, delete_stale_upto(t, existing, gifts, n)),
    decreases n,
{
    let after = delete_stale_upto(t, existing, gifts, n);
    if n > 0 {
        lemma_delete_stale_keeps_claims(t, existing, gifts, (n - 1) as nat);
        let before = delete_stale_upto(t, existing, gifts, (n - 1) as nat);
        assert forall|i: int| 0 <= i < after.gifts.len() implies new_or_as_in(
            t,
            #[trigger] after.gifts[i],
        ) by {
            if submitted(gifts, existing[n - 1].uuid) {
                assert(new_or_as_in(t, before.gifts[i]));
            } else {
                let m = lemma_filter_member(
                    before.gifts,
                    Tables::keeps_gift_fn(existing[n - 1].uuid),
                    i,
                );
                assert(new_or_as_in(t, before.gifts[m]));
            }
        }
    } else {
        assert forall|i: int| 0 <= i < after.gifts.len() implies new_or_as_in(
            t,
            #[trigger] after.gifts[i],
        ) by {
            assert(t.gifts[i].gift_uuid == after.gifts[i].gift_uuid);
        }
    }
}

/// A call, however it ends, changes the claim on no gift: every gift that
/// is stored afterwards is a new one that nobody has claimed, or one that
/// was stored before, with the owner, the claim and the alternate that it
/// had.
pub proof fn lemma_reconcile_leaves_claims(
    t: Tables,
    list: Seq<char>,
    acting: Seq<char>,
    gifts: Seq<FormGiftView>,
    minted: Seq<Seq<char>>,
)
    ensures
        all_new_or_as_in(t, reconcile_of(t, list, acting, gifts, minted).1),
{
    let map = placeholder_map(gifts, minted, gifts.len());
    let existing = t.gifts_of_list_user(list, acting, acting);
    lemma_delete_stale_keeps_claims(t, existing, gifts, existing.len());
    let kept = delete_stale_upto(t, existing, gifts, existing.len());
    lemma_upsert_keeps_claims(t, kept, list, acting, gifts, minted, map, gifts.len());
    lemma_delete_stale_keeps_claims(t, existing, gifts, 0);
}

/// Where no gift names its owner as its claimer, none does after a call.
pub proof fn lemma_reconcile_no_self_claims(
    t: Tables,
    list: Seq<char>,
    acting: Seq<char>,
    gifts: Seq<FormGiftView>,
    minted: Seq<Seq<char>>,
)
    requires
        t.no_self_claims(),
    ensures
        reconcile_of(t, list, acting, gifts, minted).1.no_self_claims(),
{
    let after = reconcile_of(t, list, acting, gifts, minted).1;
    lemma_reconcile_leaves_claims(t, list, acting, gifts, minted);
    assert forall|i: int| 0 <= i < after.gifts.len() implies (#[trigger] after.gifts[i]).claimed_by
        != Some(after.gifts[i].user_uuid) by {
        assert(new_or_as_in(t, after.gifts[i]));
    }
}

/// Every gift of `t` that `acting` does not own is in `after` as it is in `t`.
pub open spec fn spares(t: Tables, after: Tables, acting: Seq<char>) -> bool {
    forall|k: int|
        0 <= k < t.gifts.len() && t.gifts[k].user_uuid != acting ==> after.gifts.contains(
            #[trigger] t.gifts[k],
        )
}

/// Every gift of `after` that `acting` does not own is a gift of `t`.
pub open spec fn adds_for_acting_only(t: Tables, after: Tables, acting: Seq<char>) -> bool {
    forall|i: int|
        0 <= i < after.gifts.len() && after.gifts[i].user_uuid != acting ==> t.gifts.contains(
            #[trigger] after.gifts[i],
        )
}

proof fn lemma_delete_stale_spares(
    t: Tables,
    list: Seq<char>,
    acting: Seq<char>,
    gifts: Seq<FormGiftView>,
    n: nat,
)
    requires
        t.wf(),
        n <= t.gifts_of_list_user(list, acting, acting).len(),
    ensures
        spares(t, delete_stale_upto(t, t.gifts_of_list_user(list, acting, acting), gifts, n), acting),
        adds_for_acting_only(
            t,
            delete_stale_upto(t, t.gifts_of_list_user(list, acting, acting), gifts, n),
            acting,
        ),
    decreases n,
{
    let existing = t.gifts_of_list_user(list, acting, acting);
    let after = delete_stale_upto(t, existing, gifts, n);
    if n > 0 {
        lemma_delete_stale_spares(t, list, acting, gifts, (n - 1) as nat);
        let before = delete_stale_upto(t, existing, gifts, (n - 1) as nat);
        let id = existing[n - 1].uuid;
        let keep = Tables::keeps_gift_fn(id);
        assert(existing.contains(existing[n - 1]));
        lemma_stored_gift(t, list, acting, existing[n - 1]);
        let first = lemma_find_first_index(t.gifts, gift_has_uuid(id));
        if !submitted(gifts, id) {
            assert forall|k: int|
                0 <= k < t.gifts.len() && t.gifts[k].user_uuid != acting implies after.gifts.contains(
                #[trigger] t.gifts[k],
            ) by {
                let r = t.gifts[k];
                assert(before.gifts.contains(r));
                let m = choose|m: int| 0 <= m < before.gifts.len() && before.gifts[m] == r;
                if r.gift_uuid == id {
                    if k < first {
                        assert(gift_key()(t.gifts[k]) != gift_key()(t.gifts[first]));
                    }
                    if first < k {
                        assert(gift_key()(t.gifts[first]) != gift_key()(t.gifts[k]));
                    }
                }
                assert(keep(before.gifts[m]));
                before.gifts.lemma_filter_contains(keep, m);
            }
            assert forall|i: int|
                0 <= i < after.gifts.len() && after.gifts[i].user_uuid != acting implies t.gifts.contains(
                #[trigger] after.gifts[i],
            ) by {
                let m = lemma_filter_member(before.gifts, keep, i);
                assert(t.gifts.contains(before.gifts[m]));
            }
        }
    } else {
        assert forall|k: int|
            0 <= k < t.gifts.len() && t.gifts[k].user_uuid != acting implies after.gifts.contains(
            #[trigger] t.gifts[k],
        ) by {
            assert(after.gifts[k] == t.gifts[k]);
        }
        assert forall|i: int|
            0 <= i < after.gifts.len() && after.gifts[i].user_uuid != acting implies t.gifts.contains(
            #[trigger] after.gifts[i],
        ) by {
            assert(t.gifts[i] == after.gifts[i]);
        }
    }
}

proof fn lemma_upsert_one_spares(
    s: Tables,
    list: Seq<char>,
    acting: Seq<char>,
    g: FormGiftView,
    minted: Seq<char>,
    map: Map<Seq<char>, Seq<char>>,
)
    requires
        s.wf(),
    ensures
        spares(s, upsert_one(s, list, acting, g, minted, map).1, acting),
        adds_for_acting_only(s, upsert_one(s, list, acting, g, minted, map).1, acting),
{
    let after = upsert_one(s, list, acting, g, minted, map).1;
    if after != s {
        if needs_new_id(g.uuid) {
            assert forall|k: int|
                0 <= k < s.gifts.len() && s.gifts[k].user_uuid != acting implies after.gifts.contains(
                #[trigger] s.gifts[k],
            ) by {
                assert(after.gifts[k] == s.gifts[k]);
            }
            assert forall|i: int|
                0 <= i < after.gifts.len() && after.gifts[i].user_uuid != acting implies s.gifts.contains(
                #[trigger] after.gifts[i],
            ) by {
                assert(s.gifts[i] == after.gifts[i]);
            }
        } else {
            let first = lemma_find_first_index(s.gifts, gift_has_uuid(g.uuid));
            assert forall|k: int| 0 <= k < s.gifts.len() && s.gifts[k].user_uuid != acting implies (
            #[trigger] after.gifts[k]) == s.gifts[k] by {
                if s.gifts[k].gift_uuid == g.uuid {
                    if k < first {
                        assert(gift_key()(s.gifts[k]) != gift_key()(s.gifts[first]));
                    }
                    if first < k {
                        assert(gift_key()(s.gifts[first]) != gift_key()(s.gifts[k]));
                    }
                }
            }
            assert forall|k: int|
                0 <= k < s.gifts.len() && s.gifts[k].user_uuid != acting implies after.gifts.contains(
                #[trigger] s.gifts[k],
            ) by {
                assert(after.gifts[k] == s.gifts[k]);
            }
            assert forall|i: int|
                0 <= i < after.gifts.len() && after.gifts[i].user_uuid != acting implies s.gifts.contains(
                #[trigger] after.gifts[i],
            ) by {
                assert(s.gifts[i].user_uuid == after.gifts[i].user_uuid);
                assert(after.gifts[i] == s.gifts[i]);
            }
        }
    } else {
        assert forall|k: int|
            0 <= k < s.gifts.len() && s.gifts[k].user_uuid != acting implies after.gifts.contains(
            #[trigger] s.gifts[k],
        ) by {
            assert(after.gifts[k] == s.gifts[k]);
        }
        assert forall|i: int|
            0 <= i < after.gifts.len() && after.gifts[i].user_uuid != acting implies s.gifts.contains(
            #[trigger] after.gifts[i],
        ) by {
            assert(s.gifts[i] == after.gifts[i]);
        }
    }
}

proof fn lemma_upsert_spares(
    s: Tables,
    list: Seq<char>,
    acting: Seq<char>,
    gifts: Seq<FormGiftView>,
    minted: Seq<Seq<char>>,
    map: Map<Seq<char>, Seq<char>>,
    n: nat,
)
    requires
        s.wf(),
    ensures
        spares(s, upsert_upto(s, list, acting, gifts, minted, map, n).1, acting),
        adds_for_acting_only(s, upsert_upto(s, list, acting, gifts, minted, map, n).1, acting),
    decreases n,
{
    let after = upsert_upto(s, list, acting, gifts, minted, map, n).1;
    if n > 0 {
        lemma_upsert_spares(s, list, acting, gifts, minted, map, (n - 1) as nat);
        lemma_upsert_keeps(s, list, acting, gifts, minted, map, (n - 1) as nat);
        let before = upsert_upto(s, list, acting, gifts, minted, map, (n - 1) as nat);
        lemma_upsert_one_spares(before.1, list, acting, gifts[n - 1], minted[n - 1], map);
        lemma_spares_chain(s, before.1, after, acting);
    } else {
        lemma_spares_chain(s, s, s, acting);
    }
}

proof fn lemma_spares_chain(a: Tables, b: Tables, c: Tables, acting: Seq<char>)
    requires
        a == b || (spares(a, b, acting) && adds_for_acting_only(a, b, acting)),
        b == c || (spares(b, c, acting) && adds_for_acting_only(b, c, acting)),
    ensures
        spares(a, c, acting),
        adds_for_acting_only(a, c, acting),
{
    assert forall|k: int|
        0 <= k < a.gifts.len() && a.gifts[k].user_uuid != acting implies c.gifts.contains(
        #[trigger] a.gifts[k],
    ) by {
        let r = a.gifts[k];
        assert(a.gifts.contains(r));
        assert(b.gifts.contains(r));
        let m = choose|m: int| 0 <= m < b.gifts.len() && b.gifts[m] == r;
        assert(b.gifts[m].user_uuid != acting);
        assert(c.gifts.contains(b.gifts[m]));
    }
    assert forall|i: int|
        0 <= i < c.gifts.len() && c.gifts[i].user_uuid != acting implies a.gifts.contains(
        #[trigger] c.gifts[i],
    ) by {
        let r = c.gifts[i];
        assert(c.gifts.contains(r));
        assert(b.gifts.contains(r));
        let m = choose|m: int| 0 <= m < b.gifts.len() && b.gifts[m] == r;
        assert(b.gifts[m].user_uuid != acting);
        assert(a.gifts.contains(b.gifts[m]));
    }
}

/// A member's submission touches the gifts of nobody else: however the call
/// ends, every gift that another user owns is stored afterwards as it was
/// before, and no gift has appeared that another user owns.
pub proof fn lemma_reconcile_spares_others(
    t: Tables,
    list: Seq<char>,
    acting: Seq<char>,
    gifts: Seq<FormGiftView>,
    minted: Seq<Seq<char>>,
)
    requires
        t.wf(),
    ensures
        spares(t, reconcile_of(t, list, acting, gifts, minted).1, acting),
        adds_for_acting_only(t, reconcile_of(t, list, acting, gifts, minted).1, acting),
{
    let map = placeholder_map(gifts, minted, gifts.len());
    let existing = t.gifts_of_list_user(list, acting, acting);
    let kept = delete_stale_upto(t, existing, gifts, existing.len());
    let after = reconcile_of(t, list, acting, gifts, minted).1;
    lemma_delete_stale_spares(t, list, acting, gifts, existing.len());
    lemma_delete_stale_keeps(t, existing, gifts, existing.len());
    lemma_upsert_spares(kept, list, acting, gifts, minted, map, gifts.len());
    lemma_spares_chain(t, kept, upsert_upto(kept, list, acting, gifts, minted, map, gifts.len()).1, acting);
    lemma_spares_chain(t, t, t, acting);
}

/// The identifier under which the submitted gift `gifts[i]` is stored when
/// a call has succeeded: the one minted for it where it is new, its own
/// otherwise.
pub open spec fn stored_id(gifts: Seq<FormGiftView>, minted: Seq<Seq<char>>, i: int) -> Seq<char> {
    if needs_new_id(gifts[i].uuid) {
        minted[i]
    } else {
        gifts[i].uuid
    }
}

/// No gift after `gifts[i]`, among the first `n`, is stored under the same
/// identifier.
pub open spec fn is_last_write(gifts: Seq<FormGiftView>, minted: Seq<Seq<char>>, n: int, i: int) -> bool {
    forall|j: int| i < j < n ==> #[trigger] stored_id(gifts, minted, j) != stored_id(gifts, minted, i)
}

/// The store holds the submitted gift `gifts[i]`: under its identifier there
/// is a gift of `acting` with the url and the comment submitted.
pub open spec fn holds_submitted(
    after: Tables,
    acting: Seq<char>,
    gifts: Seq<FormGiftView>,
    minted: Seq<Seq<char>>,
    i: int,
) -> bool {
    after.gift_by_uuid(stored_id(gifts, minted, i)) matches Some(row) && row.user_uuid == acting
        && row.url == gifts[i].url && row.comment == gifts[i].comment
}

/// The row that places the new gift `gifts[i]` on `list` for `acting`.
pub open spec fn placement_for(list: Seq<char>, acting: Seq<char>, minted: Seq<Seq<char>>, i: int) -> ListGiftRowView {
    ListGiftRowView { list_uuid: list, user_uuid: acting, gift_uuid: minted[i] }
}

/// No new gift is stored under `id`.
pub open spec fn not_minted(gifts: Seq<FormGiftView>, minted: Seq<Seq<char>>, id: Seq<char>) -> bool {
    forall|i: int| 0 <= i < gifts.len() && needs_new_id(gifts[i].uuid) ==> #[trigger] minted[i] != id
}

/// In a pass that succeeds, a new gift is stored under the identifier
/// minted for it.
proof fn lemma_new_id_is_minted(
    start: Tables,
    list: Seq<char>,
    acting: Seq<char>,
    gifts: Seq<FormGiftView>,
    minted: Seq<Seq<char>>,
    i: int,
)
    requires
        0 <= i < gifts.len(),
        needs_new_id(gifts[i].uuid),
        upsert_upto(
            start,
            list,
            acting,
            gifts,
            minted,
            placeholder_map(gifts, minted, gifts.len()),
            gifts.len(),
        ).0 is Ok,
    ensures
        new_id(gifts[i], minted[i], placeholder_map(gifts, minted, gifts.len())) == minted[i],
{
    let map = placeholder_map(gifts, minted, gifts.len());
    if gifts[i].uuid.len() != 0 {
        assert forall|j: int| i < j < gifts.len() implies (#[trigger] gifts[j]).uuid
            != gifts[i].uuid by {
            lemma_placeholders_differ(start, list, acting, gifts, minted, map, i, j);
        }
        lemma_placeholder_maps_to_last(gifts, minted, gifts.len(), i);
    }
}

proof fn lemma_latest_write_stands(
    start: Tables,
    list: Seq<char>,
    acting: Seq<char>,
    gifts: Seq<FormGiftView>,
    minted: Seq<Seq<char>>,
    n: nat,
    i: int,
)
    requires
        0 <= i < n <= gifts.len(),
        upsert_upto(
            start,
            list,
            acting,
            gifts,
            minted,
            placeholder_map(gifts, minted, gifts.len()),
            gifts.len(),
        ).0 is Ok,
        is_last_write(gifts, minted, n as int, i),
    ensures
        holds_submitted(
            upsert_upto(
                start,
                list,
                acting,
                gifts,
                minted,
                placeholder_map(gifts, minted, gifts.len()),
                n,
            ).1,
            acting,
            gifts,
            minted,
            i,
        ),
    decreases n,
{
    let map = placeholder_map(gifts, minted, gifts.len());
    lemma_upsert_ok_before(start, list, acting, gifts, minted, map, n, gifts.len());
    lemma_upsert_ok_before(start, list, acting, gifts, minted, map, (n - 1) as nat, gifts.len());
    let before = upsert_upto(start, list, acting, gifts, minted, map, (n - 1) as nat);
    let g = gifts[n - 1];
    let x = stored_id(gifts, minted, i);
    let p = gift_has_uuid(x);
    if needs_new_id(g.uuid) {
        lemma_new_id_is_minted(start, list, acting, gifts, minted, n - 1);
    }
    if i == n - 1 {
        if needs_new_id(g.uuid) {
            let alt = resolve_alternate(g.alternate_to_uuid, map)->Ok_0;
            lemma_find_first_push(before.1.gifts, new_gift_row(new_gift(x, acting, g, alt)), p);
        } else {
            lemma_find_first_sound(before.1.gifts, p);
            lemma_find_first_map(before.1.gifts, p, gift_details_fn(g.uuid, g.url, g.comment));
        }
    } else {
        assert(is_last_write(gifts, minted, n - 1, i)) by {
            assert forall|j: int| i < j < n - 1 implies #[trigger] stored_id(gifts, minted, j)
                != stored_id(gifts, minted, i) by {}
        }
        lemma_latest_write_stands(start, list, acting, gifts, minted, (n - 1) as nat, i);
        assert(stored_id(gifts, minted, n - 1) != x);
        lemma_find_first_sound(before.1.gifts, p);
        if needs_new_id(g.uuid) {
            let alt = resolve_alternate(g.alternate_to_uuid, map)->Ok_0;
            lemma_find_first_push(
                before.1.gifts,
                new_gift_row(new_gift(minted[n - 1], acting, g, alt)),
                p,
            );
        } else {
            lemma_find_first_map(before.1.gifts, p, gift_details_fn(g.uuid, g.url, g.comment));
        }
    }
}

proof fn lemma_new_gift_is_placed(
    start: Tables,
    list: Seq<char>,
    acting: Seq<char>,
    gifts: Seq<FormGiftView>,
    minted: Seq<Seq<char>>,
    n: nat,
    i: int,
)
    requires
        0 <= i < n <= gifts.len(),
        needs_new_id(gifts[i].uuid),
        upsert_upto(
            start,
            list,
            acting,
            gifts,
            minted,
            placeholder_map(gifts, minted, gifts.len()),
            gifts.len(),
        ).0 is Ok,
    ensures
        upsert_upto(
            start,
            list,
            acting,
            gifts,
            minted,
            placeholder_map(gifts, minted, gifts.len()),
            n,
        ).1.list_gifts.contains(placement_for(list, acting, minted, i)),
    decreases n,
{
    let map = placeholder_map(gifts, minted, gifts.len());
    lemma_upsert_ok_before(start, list, acting, gifts, minted, map, n, gifts.len());
    lemma_upsert_ok_before(start, list, acting, gifts, minted, map, (n - 1) as nat, gifts.len());
    let before = upsert_upto(start, list, acting, gifts, minted, map, (n - 1) as nat);
    let after = upsert_upto(start, list, acting, gifts, minted, map, n).1;
    let wanted = placement_for(list, acting, minted, i);
    if i == n - 1 {
        lemma_new_id_is_minted(start, list, acting, gifts, minted, i);
        assert(after.list_gifts[after.list_gifts.len() - 1] == wanted);
    } else {
        lemma_new_gift_is_placed(start, list, acting, gifts, minted, (n - 1) as nat, i);
        let m = choose|m: int| 0 <= m < before.1.list_gifts.len() && before.1.list_gifts[m] == wanted;
        assert(after.list_gifts[m] == wanted);
    }
}

proof fn lemma_stale_is_deleted(t: Tables, existing: Seq<GiftView>, gifts: Seq<FormGiftView>, n: nat, k: int)
    requires
        0 <= k < n <= existing.len(),
        !submitted(gifts, existing[k].uuid),
    ensures
        delete_stale_upto(t, existing, gifts, n).gift_by_uuid(existing[k].uuid) is None,
    decreases n,
{
    let before = delete_stale_upto(t, existing, gifts, (n - 1) as nat);
    let after = delete_stale_upto(t, existing, gifts, n);
    let p = gift_has_uuid(existing[k].uuid);
    if k == n - 1 {
        let keep = Tables::keeps_gift_fn(existing[k].uuid);
        assert forall|j: int| 0 <= j < after.gifts.len() implies !p(#[trigger] after.gifts[j]) by {
            let m = lemma_filter_member(before.gifts, keep, j);
        }
        lemma_find_first_none(after.gifts, p);
    } else {
        lemma_stale_is_deleted(t, existing, gifts, (n - 1) as nat, k);
        if after != before {
            lemma_find_first_sound(before.gifts, p);
            lemma_filter_keeps_first(before.gifts, Tables::keeps_gift_fn(existing[n - 1].uuid), p);
        }
    }
}

proof fn lemma_absent_stays_absent(
    start: Tables,
    list: Seq<char>,
    acting: Seq<char>,
    gifts: Seq<FormGiftView>,
    minted: Seq<Seq<char>>,
    n: nat,
    id: Seq<char>,
)
    requires
        n <= gifts.len(),
        start.gift_by_uuid(id) is None,
        not_minted(gifts, minted, id),
        upsert_upto(
            start,
            list,
            acting,
            gifts,
            minted,
            placeholder_map(gifts, minted, gifts.len()),
            gifts.len(),
        ).0 is Ok,
    ensures
        upsert_upto(
            start,
            list,
            acting,
            gifts,
            minted,
            placeholder_map(gifts, minted, gifts.len()),
            n,
        ).1.gift_by_uuid(id) is None,
    decreases n,
{
    if n > 0 {
        let map = placeholder_map(gifts, minted, gifts.len());
        lemma_upsert_ok_before(start, list, acting, gifts, minted, map, n, gifts.len());
        lemma_upsert_ok_before(start, list, acting, gifts, minted, map, (n - 1) as nat, gifts.len());
        lemma_absent_stays_absent(start, list, acting, gifts, minted, (n - 1) as nat, id);
        let before = upsert_upto(start, list, acting, gifts, minted, map, (n - 1) as nat);
        let g = gifts[n - 1];
        let p = gift_has_uuid(id);
        if needs_new_id(g.uuid) {
            lemma_new_id_is_minted(start, list, acting, gifts, minted, n - 1);
            assert(minted[n - 1] != id);
            let alt = resolve_alternate(g.alternate_to_uuid, map)->Ok_0;
            lemma_find_first_push(
                before.1.gifts,
                new_gift_row(new_gift(minted[n - 1], acting, g, alt)),
                p,
            );
        } else {
            lemma_find_first_map(before.1.gifts, p, gift_details_fn(g.uuid, g.url, g.comment));
        }
    }
}

/// What a call that succeeds has achieved. Every submitted gift is stored
/// under its identifier for the member, with the url and the comment
/// submitted (of two gifts under one identifier, the later one). Every new
/// gift is placed on the list. And every gift that the member had on the
/// list and did not submit is gone, unless a new gift has taken its
/// identifier.
pub proof fn lemma_reconcile_stores_submitted(
    t: Tables,
    list: Seq<char>,
    acting: Seq<char>,
    gifts: Seq<FormGiftView>,
    minted: Seq<Seq<char>>,
)
    requires
        minted.len() == gifts.len(),
        reconcile_of(t, list, acting, gifts, minted).0 is Ok,
    ensures
        forall|i: int|
            0 <= i < gifts.len() && is_last_write(gifts, minted, gifts.len() as int, i)
                ==> #[trigger] holds_submitted(
                reconcile_of(t, list, acting, gifts, minted).1,
                acting,
                gifts,
                minted,
                i,
            ),
        forall|i: int|
            0 <= i < gifts.len() && needs_new_id(gifts[i].uuid) ==> reconcile_of(
                t,
                list,
                acting,
                gifts,
                minted,
            ).1.list_gifts.contains(#[trigger] placement_for(list, acting, minted, i)),
        forall|k: int|
            0 <= k < t.gifts_of_list_user(list, acting, acting).len() && !submitted(
                gifts,
                t.gifts_of_list_user(list, acting, acting)[k].uuid,
            ) && not_minted(gifts, minted, t.gifts_of_list_user(list, acting, acting)[k].uuid)
                ==> reconcile_of(t, list, acting, gifts, minted).1.gift_by_uuid(
                (#[trigger] t.gifts_of_list_user(list, acting, acting)[k]).uuid,
            ) is None,
{
    let map = placeholder_map(gifts, minted, gifts.len());
    let existing = t.gifts_of_list_user(list, acting, acting);
    let kept = delete_stale_upto(t, existing, gifts, existing.len());
    let after = reconcile_of(t, list, acting, gifts, minted).1;
    assert forall|i: int|
        0 <= i < gifts.len() && is_last_write(
            gifts,
            minted,
            gifts.len() as int,
            i,
        ) implies #[trigger] holds_submitted(after, acting, gifts, minted, i) by {
        lemma_latest_write_stands(kept, list, acting, gifts, minted, gifts.len(), i);
    }
    assert forall|i: int|
        0 <= i < gifts.len() && needs_new_id(gifts[i].uuid) implies after.list_gifts.contains(
        #[trigger] placement_for(list, acting, minted, i),
    ) by {
        lemma_new_gift_is_placed(kept, list, acting, gifts, minted, gifts.len(), i);
    }
    assert forall|k: int|
        0 <= k < existing.len() && !submitted(gifts, existing[k].uuid) && not_minted(
            gifts,
            minted,
            existing[k].uuid,
        ) implies after.gift_by_uuid((#[trigger] existing[k]).uuid) is None by {
        lemma_stale_is_deleted(t, existing, gifts, existing.len(), k);
        lemma_absent_stays_absent(kept, list, acting, gifts, minted, gifts.len(), existing[k].uuid);
    }
}

/// Who is a member of a list by the lists they are shown has a membership
/// row for it.
proof fn lemma_member_has_row(t: Tables, user: Seq<char>, list: Seq<char>)
    requires
        is_member(t, user, list),
    ensures
        t.has_member(list, user),
{
    let f = t.list_of_member_fn(user);
    let shown = t.lists_of_user(user);
    let i = choose|i: int| 0 <= i < shown.len() && (#[trigger] shown[i]).uuid == list;
    assert(shown.contains(shown[i]));
    t.members.lemma_filter_map_contains(f, shown[i]);
    let m = choose|m: MemberRowView| #[trigger] t.members.contains(m) && f(m) == Some(shown[i]);
    lemma_find_first_sound(t.lists, list_has_uuid(m.list_uuid));
    let k = choose|k: int| 0 <= k < t.members.len() && t.members[k] == m;
    assert(member_is(list, user)(t.members[k]));
    lemma_find_first_sound(t.members, member_is(list, user));
}

proof fn lemma_upsert_places_for_members(
    s: Tables,
    list: Seq<char>,
    acting: Seq<char>,
    gifts: Seq<FormGiftView>,
    minted: Seq<Seq<char>>,
    map: Map<Seq<char>, Seq<char>>,
    n: nat,
)
    requires
        s.placed_for_members(),
        s.has_member(list, acting),
    ensures
        upsert_upto(s, list, acting, gifts, minted, map, n).1.placed_for_members(),
        upsert_upto(s, list, acting, gifts, minted, map, n).1.members == s.members,
    decreases n,
{
    if n > 0 {
        lemma_upsert_places_for_members(s, list, acting, gifts, minted, map, (n - 1) as nat);
        let before = upsert_upto(s, list, acting, gifts, minted, map, (n - 1) as nat);
        let g = gifts[n - 1];
        match resolve_alternate(g.alternate_to_uuid, map) {
            Err(_) => {},
            Ok(alt) => {
                lemma_with_gift_keeps_placed(
                    before.1,
                    new_gift(new_id(g, minted[n - 1], map), acting, g, alt),
                    list,
                );
            },
        }
    }
}

proof fn lemma_delete_stale_places_for_members(
    t: Tables,
    existing: Seq<GiftView>,
    gifts: Seq<FormGiftView>,
    n: nat,
)
    requires
        t.placed_for_members(),
    ensures
        delete_stale_upto(t, existing, gifts, n).placed_for_members(),
        delete_stale_upto(t, existing, gifts, n).members == t.members,
    decreases n,
{
    if n > 0 {
        lemma_delete_stale_places_for_members(t, existing, gifts, (n - 1) as nat);
        let before = delete_stale_upto(t, existing, gifts, (n - 1) as nat);
        lemma_removals_keep_placed(before, existing[n - 1].uuid, Seq::empty(), Seq::empty());
    }
}

/// A gift is placed on a list only for a member of it: where that holds of
/// the store, it holds after a call, however the call ends.
pub proof fn lemma_reconcile_places_for_members(
    t: Tables,
    list: Seq<char>,
    acting: Seq<char>,
    gifts: Seq<FormGiftView>,
    minted: Seq<Seq<char>>,
)
    requires
        t.placed_for_members(),
    ensures
        reconcile_of(t, list, acting, gifts, minted).1.placed_for_members(),
{
    if is_member(t, acting, list) {
        let map = placeholder_map(gifts, minted, gifts.len());
        let existing = t.gifts_of_list_user(list, acting, acting);
        lemma_member_has_row(t, acting, list);
        lemma_delete_stale_places_for_members(t, existing, gifts, existing.len());
        let kept = delete_stale_upto(t, existing, gifts, existing.len());
        lemma_upsert_places_for_members(kept, list, acting, gifts, minted, map, gifts.len());
    }
}

/// Some submitted gift is stored under `id`.
pub open spec fn is_stored_id(gifts: Seq<FormGiftView>, minted: Seq<Seq<char>>, id: Seq<char>) -> bool {
    exists|i: int| 0 <= i < gifts.len() && #[trigger] stored_id(gifts, minted, i) == id
}

/// The gift `id` is among `listing`.
pub open spec fn is_listed(listing: Seq<GiftView>, id: Seq<char>) -> bool {
    exists|k: int| 0 <= k < listing.len() && (#[trigger] listing[k]).uuid == id
}

/// A row of `t` that places a gift for `owner` on `list` places one of the
/// gifts that `t` lists for them.
proof fn lemma_placed_is_listed(t: Tables, list: Seq<char>, owner: Seq<char>, viewer: Seq<char>, j: int)
    requires
        0 <= j < t.list_gifts.len(),
        t.list_gifts[j].list_uuid == list,
        t.list_gifts[j].user_uuid == owner,
        t.gift_by_uuid(t.list_gifts[j].gift_uuid) is Some,
    ensures
        is_listed(t.gifts_of_list_user(list, owner, viewer), t.list_gifts[j].gift_uuid),
{
    let f = t.gift_of_placement_fn(list, owner, viewer);
    let listing = t.gifts_of_list_user(list, owner, viewer);
    let p = t.list_gifts[j];
    lemma_find_first_sound(t.gifts, gift_has_uuid(p.gift_uuid));
    lemma_filter_map_has(t.list_gifts, f, j);
    let x = f(p)->Some_0;
    let k = choose|k: int| 0 <= k < listing.len() && listing[k] == x;
    assert(listing[k].uuid == p.gift_uuid);
}

/// A gift that `t` lists for `owner` on `list` is placed there by a row.
proof fn lemma_listed_is_placed(t: Tables, list: Seq<char>, owner: Seq<char>, viewer: Seq<char>, k: int) -> (j:
    int)
    requires
        0 <= k < t.gifts_of_list_user(list, owner, viewer).len(),
    ensures
        0 <= j < t.list_gifts.len(),
        t.list_gifts[j].list_uuid == list,
        t.list_gifts[j].user_uuid == owner,
        t.list_gifts[j].gift_uuid == t.gifts_of_list_user(list, owner, viewer)[k].uuid,
        t.gift_by_uuid(t.list_gifts[j].gift_uuid) is Some,
{
    let f = t.gift_of_placement_fn(list, owner, viewer);
    let listing = t.gifts_of_list_user(list, owner, viewer);
    assert(listing.contains(listing[k]));
    t.list_gifts.lemma_filter_map_contains(f, listing[k]);
    let p = choose|p: ListGiftRowView| #[trigger] t.list_gifts.contains(p) && f(p) == Some(listing[k]);
    let j = choose|j: int| 0 <= j < t.list_gifts.len() && t.list_gifts[j] == p;
    lemma_find_first_sound(t.gifts, gift_has_uuid(p.gift_uuid));
    j
}

/// What the deletion of the gifts left out leaves of the rows that place
/// gifts: rows of `t`, none of them for a gift that was deleted.
proof fn lemma_delete_stale_placements(
    t: Tables,
    existing: Seq<GiftView>,
    gifts: Seq<FormGiftView>,
    n: nat,
    i: int,
)
    requires
        n <= existing.len(),
        0 <= i < delete_stale_upto(t, existing, gifts, n).list_gifts.len(),
    ensures
        t.list_gifts.contains(delete_stale_upto(t, existing, gifts, n).list_gifts[i]),
        forall|k: int|
            0 <= k < n && !submitted(gifts, (#[trigger] existing[k]).uuid) ==> delete_stale_upto(
                t,
                existing,
                gifts,
                n,
            ).list_gifts[i].gift_uuid != existing[k].uuid,
    decreases n,
{
    if n == 0 {
        assert(t.list_gifts[i] == t.list_gifts[i]);
    } else {
        let before = delete_stale_upto(t, existing, gifts, (n - 1) as nat);
        if submitted(gifts, existing[n - 1].uuid) {
            lemma_delete_stale_placements(t, existing, gifts, (n - 1) as nat, i);
        } else {
            let m = lemma_filter_member(
                before.list_gifts,
                Tables::keeps_placement_fn(existing[n - 1].uuid),
                i,
            );
            lemma_delete_stale_placements(t, existing, gifts, (n - 1) as nat, m);
        }
    }
}

/// A row that places a gift that is submitted stays through the deletion,
/// and so does the gift.
proof fn lemma_delete_stale_keeps_submitted(
    t: Tables,
    existing: Seq<GiftView>,
    gifts: Seq<FormGiftView>,
    n: nat,
    j: int,
)
    requires
        n <= existing.len(),
        0 <= j < t.list_gifts.len(),
        submitted(gifts, t.list_gifts[j].gift_uuid),
        t.gift_by_uuid(t.list_gifts[j].gift_uuid) is Some,
    ensures
        delete_stale_upto(t, existing, gifts, n).list_gifts.contains(t.list_gifts[j]),
        delete_stale_upto(t, existing, gifts, n).gift_by_uuid(t.list_gifts[j].gift_uuid) is Some,
    decreases n,
{
    let p = t.list_gifts[j];
    if n == 0 {
        assert(t.list_gifts[j] == p);
    } else {
        lemma_delete_stale_keeps_submitted(t, existing, gifts, (n - 1) as nat, j);
        let before = delete_stale_upto(t, existing, gifts, (n - 1) as nat);
        let id = existing[n - 1].uuid;
        if !submitted(gifts, id) {
            let keep = Tables::keeps_placement_fn(id);
            let m = choose|m: int| 0 <= m < before.list_gifts.len() && before.list_gifts[m] == p;
            assert(keep(before.list_gifts[m]));
            before.list_gifts.lemma_filter_contains(keep, m);
            lemma_filter_keeps_first(
                before.gifts,
                Tables::keeps_gift_fn(id),
                gift_has_uuid(p.gift_uuid),
            );
        }
    }
}

/// What the pass adds to the rows that place gifts: one for each new gift,
/// for the member on the list.
proof fn lemma_upsert_placements(
    start: Tables,
    list: Seq<char>,
    acting: Seq<char>,
    gifts: Seq<FormGiftView>,
    minted: Seq<Seq<char>>,
    n: nat,
    i: int,
)
    requires
        n <= gifts.len(),
        upsert_upto(
            start,
            list,
            acting,
            gifts,
            minted,
            placeholder_map(gifts, minted, gifts.len()),
            gifts.len(),
        ).0 is Ok,
        0 <= i < upsert_upto(
            start,
            list,
            acting,
            gifts,
            minted,
            placeholder_map(gifts, minted, gifts.len()),
            n,
        ).1.list_gifts.len(),
    ensures
        ({
            let p = upsert_upto(
                start,
                list,
                acting,
                gifts,
                minted,
                placeholder_map(gifts, minted, gifts.len()),
                n,
            ).1.list_gifts[i];
            ||| start.list_gifts.contains(p)
            ||| (p.list_uuid == list && p.user_uuid == acting && is_stored_id(
                gifts,
                minted,
                p.gift_uuid,
            ))
        }),
    decreases n,
{
    let map = placeholder_map(gifts, minted, gifts.len());
    if n == 0 {
        assert(start.list_gifts[i] == start.list_gifts[i]);
    } else {
        lemma_upsert_ok_before(start, list, acting, gifts, minted, map, n, gifts.len());
        lemma_upsert_ok_before(start, list, acting, gifts, minted, map, (n - 1) as nat, gifts.len());
        let before = upsert_upto(start, list, acting, gifts, minted, map, (n - 1) as nat);
        if i < before.1.list_gifts.len() {
            lemma_upsert_placements(start, list, acting, gifts, minted, (n - 1) as nat, i);
        } else {
            lemma_new_id_is_minted(start, list, acting, gifts, minted, n - 1);
            assert(stored_id(gifts, minted, n - 1) == minted[n - 1]);
        }
    }
}

/// A gift that is stored when the pass begins is stored when it has gone
/// on, and so is every row that places a gift.
proof fn lemma_upsert_keeps_stored(
    start: Tables,
    list: Seq<char>,
    acting: Seq<char>,
    gifts: Seq<FormGiftView>,
    minted: Seq<Seq<char>>,
    map: Map<Seq<char>, Seq<char>>,
    n: nat,
    p: ListGiftRowView,
)
    requires
        start.list_gifts.contains(p),
        start.gift_by_uuid(p.gift_uuid) is Some,
    ensures
        upsert_upto(start, list, acting, gifts, minted, map, n).1.list_gifts.contains(p),
        upsert_upto(start, list, acting, gifts, minted, map, n).1.gift_by_uuid(p.gift_uuid) is Some,
    decreases n,
{
    if n > 0 {
        lemma_upsert_keeps_stored(start, list, acting, gifts, minted, map, (n - 1) as nat, p);
        let before = upsert_upto(start, list, acting, gifts, minted, map, (n - 1) as nat);
        let after = upsert_upto(start, list, acting, gifts, minted, map, n).1;
        let g = gifts[n - 1];
        let m = choose|m: int| 0 <= m < before.1.list_gifts.len() && before.1.list_gifts[m] == p;
        if after != before.1 {
            assert(after.list_gifts[m] == p);
            match resolve_alternate(g.alternate_to_uuid, map) {
                Err(_) => {},
                Ok(alt) => {
                    lemma_find_first_push(
                        before.1.gifts,
                        new_gift_row(new_gift(new_id(g, minted[n - 1], map), acting, g, alt)),
                        gift_has_uuid(p.gift_uuid),
                    );
                    lemma_find_first_map(
                        before.1.gifts,
                        gift_has_uuid(p.gift_uuid),
                        gift_details_fn(g.uuid, g.url, g.comment),
                    );
                },
            }
        }
    }
}

/// After a call that succeeds, the gifts that the store lists for the
/// member on the list are the submitted ones, where the gifts listed before
/// have durable identifiers. Every gift listed is stored under the
/// identifier of a submitted gift. Every new gift is listed. And every gift
/// that was listed before and is submitted again is listed still.
pub proof fn lemma_reconcile_lists_the_submitted(
    t: Tables,
    list: Seq<char>,
    acting: Seq<char>,
    viewer: Seq<char>,
    gifts: Seq<FormGiftView>,
    minted: Seq<Seq<char>>,
)
    requires
        t.wf(),
        minted.len() == gifts.len(),
        reconcile_of(t, list, acting, gifts, minted).0 is Ok,
        forall|j: int|
            0 <= j < t.gifts_of_list_user(list, acting, acting).len() ==> !needs_new_id(
                #[trigger] t.gifts_of_list_user(list, acting, acting)[j].uuid,
            ),
    ensures
        forall|k: int|
            0 <= k < reconcile_of(t, list, acting, gifts, minted).1.gifts_of_list_user(
                list,
                acting,
                viewer,
            ).len() ==> is_stored_id(
                gifts,
                minted,
                (#[trigger] reconcile_of(t, list, acting, gifts, minted).1.gifts_of_list_user(
                    list,
                    acting,
                    viewer,
                )[k]).uuid,
            ),
        forall|i: int|
            0 <= i < gifts.len() && needs_new_id(gifts[i].uuid) ==> is_listed(
                reconcile_of(t, list, acting, gifts, minted).1.gifts_of_list_user(list, acting, viewer),
                #[trigger] minted[i],
            ),
        forall|j: int|
            0 <= j < t.gifts_of_list_user(list, acting, acting).len() && submitted(
                gifts,
                t.gifts_of_list_user(list, acting, acting)[j].uuid,
            ) ==> is_listed(
                reconcile_of(t, list, acting, gifts, minted).1.gifts_of_list_user(list, acting, viewer),
                (#[trigger] t.gifts_of_list_user(list, acting, acting)[j]).uuid,
            ),
{
    let map = placeholder_map(gifts, minted, gifts.len());
    let existing = t.gifts_of_list_user(list, acting, acting);
    let kept = delete_stale_upto(t, existing, gifts, existing.len());
    let after = reconcile_of(t, list, acting, gifts, minted).1;
    let listing = after.gifts_of_list_user(list, acting, viewer);
    assert forall|k: int| 0 <= k < listing.len() implies is_stored_id(
        gifts,
        minted,
        (#[trigger] listing[k]).uuid,
    ) by {
        let j = lemma_listed_is_placed(after, list, acting, viewer, k);
        let p = after.list_gifts[j];
        lemma_upsert_placements(kept, list, acting, gifts, minted, gifts.len(), j);
        if kept.list_gifts.contains(p) {
            let m = choose|m: int| 0 <= m < kept.list_gifts.len() && kept.list_gifts[m] == p;
            lemma_delete_stale_placements(t, existing, gifts, existing.len(), m);
            let o = choose|o: int| 0 <= o < t.list_gifts.len() && t.list_gifts[o] == p;
            assert(t.resolves(t.list_gifts[o]));
            lemma_placed_is_listed(t, list, acting, acting, o);
            let e = choose|e: int| 0 <= e < existing.len() && (#[trigger] existing[e]).uuid == p.gift_uuid;
            assert(submitted(gifts, existing[e].uuid));
            assert(!needs_new_id(existing[e].uuid));
            let i = choose|i: int| 0 <= i < gifts.len() && (#[trigger] gifts[i]).uuid == p.gift_uuid;
            assert(stored_id(gifts, minted, i) == p.gift_uuid);
        }
    }
    assert forall|i: int| 0 <= i < gifts.len() && needs_new_id(gifts[i].uuid) implies is_listed(
        listing,
        #[trigger] minted[i],
    ) by {
        lemma_new_gift_is_placed(kept, list, acting, gifts, minted, gifts.len(), i);
        lemma_new_id_is_minted(kept, list, acting, gifts, minted, i);
        lemma_created_gift_stays(kept, list, acting, gifts, minted, map, gifts.len(), i);
        let p = placement_for(list, acting, minted, i);
        let j = choose|j: int| 0 <= j < after.list_gifts.len() && after.list_gifts[j] == p;
        lemma_placed_is_listed(after, list, acting, viewer, j);
    }
    assert forall|j: int| 0 <= j < existing.len() && submitted(gifts, existing[j].uuid) implies is_listed(
        listing,
        (#[trigger] existing[j]).uuid,
    ) by {
        let o = lemma_listed_is_placed(t, list, acting, acting, j);
        let p = t.list_gifts[o];
        lemma_delete_stale_keeps_submitted(t, existing, gifts, existing.len(), o);
        lemma_upsert_keeps_stored(kept, list, acting, gifts, minted, map, gifts.len(), p);
        let a = choose|a: int| 0 <= a < after.list_gifts.len() && after.list_gifts[a] == p;
        lemma_placed_is_listed(after, list, acting, viewer, a);
    }
}

} // verus!
