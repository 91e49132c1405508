//! What holds of the statements of the store: what it keeps true of its
//! tables whatever is done to them, and what removing a list removes.

use crate::data::{GiftView, ListView, UserView};
use crate::seqs::{
    find_first, lemma_filter_distinct, lemma_filter_keeps_first, lemma_filter_member,
    lemma_find_first_index, lemma_find_first_map, lemma_find_first_none, lemma_find_first_push,
    lemma_find_first_sound, lemma_map_distinct, lemma_push_distinct,
};
use crate::tables::{
    gift_details_fn, gift_has_uuid, gift_key, gift_on_list, gift_on_list_of, list_has_uuid,
    list_key, list_owned_by, list_row, member_is, modify_gift_fn, modify_list_fn, modify_user_fn,
    new_gift_row, owns_list, placement_key, placement_of, placement_on_list_of, user_has_uuid,
    user_key, user_row, GiftRowView, ListGiftRowView, MemberRowView, Tables,
};
use vstd::prelude::*;

verus! {

/// The store without rows is well formed.
pub proof fn lemma_empty_wf()
    ensures
        Tables::empty().wf(),
        Tables::empty().claims_consistent(),
{
}

/// A user under an identifier that is free may be added.
pub proof fn lemma_with_user_wf(t: Tables, user: UserView, token: Seq<char>)
    requires
        t.wf(),
        t.user_by_uuid(user.uuid) is None,
    ensures
        t.with_user(user, token).wf(),
{
    lemma_find_first_sound(t.users, user_has_uuid(user.uuid));
    lemma_push_distinct(t.users, user_row(user, token), user_key());
}

/// A new membership row leaves every owner a member.
pub proof fn lemma_with_member_wf(t: Tables, list: Seq<char>, user: Seq<char>)
    requires
        t.wf(),
    ensures
        t.with_member(list, user).wf(),
{
    let after = t.with_member(list, user);
    let row = MemberRowView { list_uuid: list, user_uuid: user };
    assert forall|i: int| 0 <= i < after.lists.len() implies after.has_member(
        (#[trigger] after.lists[i]).list_uuid,
        after.lists[i].owner,
    ) by {
        assert(t.has_member(t.lists[i].list_uuid, t.lists[i].owner));
        lemma_find_first_push(t.members, row, member_is(t.lists[i].list_uuid, t.lists[i].owner));
    }
}

/// A list under an identifier that is free may be added; its owner becomes
/// a member with it.
pub proof fn lemma_with_list_wf(t: Tables, list: ListView)
    requires
        t.wf(),
        t.list_by_uuid(list.uuid) is None,
    ensures
        t.with_list(list).wf(),
{
    let after = t.with_list(list);
    let row = MemberRowView { list_uuid: list.uuid, user_uuid: list.owner };
    lemma_find_first_sound(t.lists, list_has_uuid(list.uuid));
    lemma_push_distinct(t.lists, list_row(list), list_key());
    assert forall|i: int| 0 <= i < after.lists.len() implies after.has_member(
        (#[trigger] after.lists[i]).list_uuid,
        after.lists[i].owner,
    ) by {
        let l = after.lists[i];
        if i < t.lists.len() {
            assert(t.has_member(t.lists[i].list_uuid, t.lists[i].owner));
        }
        lemma_find_first_push(t.members, row, member_is(l.list_uuid, l.owner));
    }
}

/// A gift under an identifier that is free may be added and placed.
pub proof fn lemma_with_gift_wf(t: Tables, gift: GiftView, list: Seq<char>)
    requires
        t.wf(),
        t.gift_by_uuid(gift.uuid) is None,
    ensures
        t.with_gift(gift, list).wf(),
{
    let after = t.with_gift(gift, list);
    let row = new_gift_row(gift);
    let placement = ListGiftRowView { list_uuid: list, user_uuid: gift.owner, gift_uuid: gift.uuid };
    lemma_find_first_sound(t.gifts, gift_has_uuid(gift.uuid));
    lemma_push_distinct(t.gifts, row, gift_key());
    assert forall|i: int| 0 <= i < t.list_gifts.len() implies placement_key()(
        #[trigger] t.list_gifts[i],
    ) != placement_key()(placement) by {
        assert(t.resolves(t.list_gifts[i]));
    }
    lemma_push_distinct(t.list_gifts, placement, placement_key());
    assert forall|i: int| 0 <= i < after.list_gifts.len() implies after.resolves(
        #[trigger] after.list_gifts[i],
    ) by {
        let p = after.list_gifts[i];
        lemma_find_first_push(t.gifts, row, gift_has_uuid(p.gift_uuid));
        if i < t.list_gifts.len() {
            assert(t.resolves(t.list_gifts[i]));
        }
    }
}

/// A change of a user's name, email and privilege keeps the store well
/// formed.
pub proof fn lemma_with_user_modified_wf(t: Tables, user: UserView)
    requires
        t.wf(),
    ensures
        t.with_user_modified(user).wf(),
{
    lemma_map_distinct(t.users, modify_user_fn(user), user_key());
}

/// A change of a list's name keeps the store well formed.
pub proof fn lemma_with_list_modified_wf(t: Tables, list: ListView)
    requires
        t.wf(),
    ensures
        t.with_list_modified(list).wf(),
{
    lemma_map_distinct(t.lists, modify_list_fn(list), list_key());
}

proof fn lemma_gifts_rewritten_wf(t: Tables, f: spec_fn(GiftRowView) -> GiftRowView)
    requires
        t.wf(),
        forall|g: GiftRowView|
            (#[trigger] f(g)).gift_uuid == g.gift_uuid && f(g).user_uuid == g.user_uuid,
    ensures
        (Tables { gifts: t.gifts.map_values(f), ..t }).wf(),
{
    let after = Tables { gifts: t.gifts.map_values(f), ..t };
    lemma_map_distinct(t.gifts, f, gift_key());
    assert forall|i: int| 0 <= i < after.list_gifts.len() implies after.resolves(
        #[trigger] after.list_gifts[i],
    ) by {
        let p = after.list_gifts[i];
        assert(t.resolves(t.list_gifts[i]));
        lemma_find_first_map(t.gifts, gift_has_uuid(p.gift_uuid), f);
    }
}

/// A change of a gift's url, comment and claim state keeps the store well
/// formed.
pub proof fn lemma_with_gift_modified_wf(t: Tables, gift: GiftView)
    requires
        t.wf(),
    ensures
        t.with_gift_modified(gift).wf(),
{
    lemma_gifts_rewritten_wf(t, modify_gift_fn(gift));
}

/// A change of a gift's url and comment keeps the store well formed.
pub proof fn lemma_with_gift_details_wf(t: Tables, uuid: Seq<char>, url: Seq<char>, comment: Seq<char>)
    requires
        t.wf(),
    ensures
        t.with_gift_details(uuid, url, comment).wf(),
{
    lemma_gifts_rewritten_wf(t, gift_details_fn(uuid, url, comment));
}

/// Where gifts and the rows that place them are removed together, so that a
/// row stays only with its gift, the store stays well formed.
proof fn lemma_removal_wf(
    t: Tables,
    after: Tables,
    keep_gift: spec_fn(GiftRowView) -> bool,
    keep_placement: spec_fn(ListGiftRowView) -> bool,
)
    requires
        t.wf(),
        after.user_ids_distinct(),
        after.list_ids_distinct(),
        after.owners_are_members(),
        after.gifts == t.gifts.filter(keep_gift),
        after.list_gifts == t.list_gifts.filter(keep_placement),
        forall|i: int, k: int|
            0 <= i < t.list_gifts.len() && 0 <= k < t.gifts.len() && keep_placement(
                #[trigger] t.list_gifts[i],
            ) && (#[trigger] t.gifts[k]).gift_uuid == t.list_gifts[i].gift_uuid ==> keep_gift(
                t.gifts[k],
            ),
    ensures
        after.wf(),
{
    lemma_filter_distinct(t.gifts, keep_gift, gift_key());
    lemma_filter_distinct(t.list_gifts, keep_placement, placement_key());
    assert forall|i: int| 0 <= i < after.list_gifts.len() implies after.resolves(
        #[trigger] after.list_gifts[i],
    ) by {
        let p = after.list_gifts[i];
        let m = lemma_filter_member(t.list_gifts, keep_placement, i);
        assert(t.resolves(t.list_gifts[m]));
        let wanted = gift_has_uuid(p.gift_uuid);
        assert forall|k: int| 0 <= k < t.gifts.len() && wanted(#[trigger] t.gifts[k]) implies keep_gift(
            t.gifts[k],
        ) by {
            assert(keep_placement(t.list_gifts[m]));
        }
        lemma_filter_keeps_first(t.gifts, keep_gift, wanted);
    }
}

/// Removing a gift keeps the store well formed.
pub proof fn lemma_without_gift_wf(t: Tables, uuid: Seq<char>)
    requires
        t.wf(),
    ensures
        t.without_gift(uuid).wf(),
{
    lemma_removal_wf(
        t,
        t.without_gift(uuid),
        Tables::keeps_gift_fn(uuid),
        Tables::keeps_placement_fn(uuid),
    );
}

/// The only row that places the gift of `t.list_gifts[i]` is that row.
proof fn lemma_placed_once(t: Tables, i: int, wanted: spec_fn(ListGiftRowView) -> bool)
    requires
        t.placements_distinct(),
        0 <= i < t.list_gifts.len(),
        find_first(t.list_gifts, wanted) matches Some(q) && q.gift_uuid
            == t.list_gifts[i].gift_uuid,
    ensures
        find_first(t.list_gifts, wanted) == Some(t.list_gifts[i]),
{
    let k = lemma_find_first_index(t.list_gifts, wanted);
    if k < i {
        assert(placement_key()(t.list_gifts[k]) != placement_key()(t.list_gifts[i]));
    }
    if i < k {
        assert(placement_key()(t.list_gifts[i]) != placement_key()(t.list_gifts[k]));
    }
}

/// Removing a list with what is on it keeps the store well formed.
pub proof fn lemma_without_list_wf(t: Tables, list: Seq<char>)
    requires
        t.wf(),
    ensures
        t.without_list(list).wf(),
{
    let after = t.without_list(list);
    let keep_gift = Tables::gift_off_list_fn(t.list_gifts, list);
    let keep_placement = Tables::placement_off_list_fn(list);
    let keep_member = Tables::member_off_list_fn(list);
    lemma_filter_distinct(t.lists, Tables::list_is_not_fn(list), list_key());
    assert forall|i: int| 0 <= i < after.lists.len() implies after.has_member(
        (#[trigger] after.lists[i]).list_uuid,
        after.lists[i].owner,
    ) by {
        let l = after.lists[i];
        let m = lemma_filter_member(t.lists, Tables::list_is_not_fn(list), i);
        assert(t.has_member(t.lists[m].list_uuid, t.lists[m].owner));
        lemma_filter_keeps_first(t.members, keep_member, member_is(l.list_uuid, l.owner));
    }
    assert forall|i: int, k: int|
        0 <= i < t.list_gifts.len() && 0 <= k < t.gifts.len() && keep_placement(
            #[trigger] t.list_gifts[i],
        ) && (#[trigger] t.gifts[k]).gift_uuid == t.list_gifts[i].gift_uuid implies keep_gift(
        t.gifts[k],
    ) by {
        let wanted = placement_of(t.gifts[k].gift_uuid, list);
        if gift_on_list(t.list_gifts, t.gifts[k].gift_uuid, list) {
            lemma_find_first_sound(t.list_gifts, wanted);
            lemma_placed_once(t, i, wanted);
        }
    }
    lemma_removal_wf(t, after, keep_gift, keep_placement);
}

/// Removing a user with what is theirs keeps the store well formed.
pub proof fn lemma_without_user_wf(t: Tables, user: Seq<char>)
    requires
        t.wf(),
    ensures
        t.without_user(user).wf(),
{
    let after = t.without_user(user);
    let keep_gift = Tables::gift_survives_fn(t.list_gifts, t.lists, user);
    let keep_placement = Tables::placement_survives_fn(t.lists, user);
    let keep_member = Tables::member_survives_fn(t.lists, user);
    lemma_filter_distinct(t.users, Tables::user_is_not_fn(user), user_key());
    lemma_filter_distinct(t.lists, Tables::list_not_owned_fn(user), list_key());
    assert forall|i: int| 0 <= i < after.lists.len() implies after.has_member(
        (#[trigger] after.lists[i]).list_uuid,
        after.lists[i].owner,
    ) by {
        let l = after.lists[i];
        let m = lemma_filter_member(t.lists, Tables::list_not_owned_fn(user), i);
        assert(t.has_member(t.lists[m].list_uuid, t.lists[m].owner));
        if owns_list(t.lists, user, l.list_uuid) {
            let wanted = list_owned_by(l.list_uuid, user);
            let k = lemma_find_first_index(t.lists, wanted);
            if k < m {
                assert(list_key()(t.lists[k]) != list_key()(t.lists[m]));
            }
            if m < k {
                assert(list_key()(t.lists[m]) != list_key()(t.lists[k]));
            }
        }
        lemma_filter_keeps_first(t.members, keep_member, member_is(l.list_uuid, l.owner));
    }
    assert forall|i: int, k: int|
        0 <= i < t.list_gifts.len() && 0 <= k < t.gifts.len() && keep_placement(
            #[trigger] t.list_gifts[i],
        ) && (#[trigger] t.gifts[k]).gift_uuid == t.list_gifts[i].gift_uuid implies keep_gift(
        t.gifts[k],
    ) by {
        let p = t.list_gifts[i];
        assert(t.resolves(p));
        let first = lemma_find_first_index(t.gifts, gift_has_uuid(p.gift_uuid));
        if first < k {
            assert(gift_key()(t.gifts[first]) != gift_key()(t.gifts[k]));
        }
        if k < first {
            assert(gift_key()(t.gifts[k]) != gift_key()(t.gifts[first]));
        }
        assert(t.gifts[k].user_uuid == p.user_uuid);
        let wanted = placement_on_list_of(t.lists, t.gifts[k].gift_uuid, user);
        if gift_on_list_of(t.list_gifts, t.lists, t.gifts[k].gift_uuid, user) {
            lemma_find_first_sound(t.list_gifts, wanted);
            lemma_placed_once(t, i, wanted);
        }
    }
    lemma_removal_wf(t, after, keep_gift, keep_placement);
}

/// A gift that has just been created is unclaimed and names no claimer.
pub proof fn lemma_with_gift_claims(t: Tables, gift: GiftView, list: Seq<char>)
    requires
        t.claims_consistent(),
    ensures
        t.with_gift(gift, list).claims_consistent(),
{
    let after = t.with_gift(gift, list);
    assert forall|i: int| 0 <= i < after.gifts.len() implies ((#[trigger] after.gifts[i]).claimed
        <==> after.gifts[i].claimed_by is Some) by {
        if i < t.gifts.len() {
            assert(after.gifts[i] == t.gifts[i]);
        }
    }
}

/// A change of url and comment leaves the claims as they are.
pub proof fn lemma_with_gift_details_claims(t: Tables, uuid: Seq<char>, url: Seq<char>, comment: Seq<char>)
    requires
        t.claims_consistent(),
    ensures
        t.with_gift_details(uuid, url, comment).claims_consistent(),
{
}

/// Removing a gift leaves the claims of the others as they are.
pub proof fn lemma_without_gift_claims(t: Tables, uuid: Seq<char>)
    requires
        t.claims_consistent(),
    ensures
        t.without_gift(uuid).claims_consistent(),
{
    let after = t.without_gift(uuid);
    assert forall|i: int| 0 <= i < after.gifts.len() implies ((#[trigger] after.gifts[i]).claimed
        <==> after.gifts[i].claimed_by is Some) by {
        let m = lemma_filter_member(t.gifts, Tables::keeps_gift_fn(uuid), i);
        assert(t.gifts[m] == after.gifts[i]);
    }
}

/// Where every gift is placed for a member, new members and new lists
/// leave it so.
pub proof fn lemma_more_members_keep_placed(t: Tables, list: ListView, member_list: Seq<char>, user: Seq<char>)
    requires
        t.placed_for_members(),
    ensures
        t.with_member(member_list, user).placed_for_members(),
        t.with_list(list).placed_for_members(),
{
    let joined = t.with_member(member_list, user);
    assert forall|i: int| 0 <= i < joined.list_gifts.len() implies joined.has_member(
        (#[trigger] joined.list_gifts[i]).list_uuid,
        joined.list_gifts[i].user_uuid,
    ) by {
        let p = t.list_gifts[i];
        assert(t.has_member(p.list_uuid, p.user_uuid));
        lemma_find_first_push(
            t.members,
            MemberRowView { list_uuid: member_list, user_uuid: user },
            member_is(p.list_uuid, p.user_uuid),
        );
    }
    let listed = t.with_list(list);
    assert forall|i: int| 0 <= i < listed.list_gifts.len() implies listed.has_member(
        (#[trigger] listed.list_gifts[i]).list_uuid,
        listed.list_gifts[i].user_uuid,
    ) by {
        let p = t.list_gifts[i];
        assert(t.has_member(p.list_uuid, p.user_uuid));
        lemma_find_first_push(
            t.members,
            MemberRowView { list_uuid: list.uuid, user_uuid: list.owner },
            member_is(p.list_uuid, p.user_uuid),
        );
    }
}

/// A gift may be placed for a member.
pub proof fn lemma_with_gift_keeps_placed(t: Tables, gift: GiftView, list: Seq<char>)
    requires
        t.placed_for_members(),
        t.has_member(list, gift.owner),
    ensures
        t.with_gift(gift, list).placed_for_members(),
{
    let after = t.with_gift(gift, list);
    assert forall|i: int| 0 <= i < after.list_gifts.len() implies after.has_member(
        (#[trigger] after.list_gifts[i]).list_uuid,
        after.list_gifts[i].user_uuid,
    ) by {
        if i < t.list_gifts.len() {
            assert(t.has_member(t.list_gifts[i].list_uuid, t.list_gifts[i].user_uuid));
        }
    }
}

/// Where every gift is placed for a member, removing a gift, a list or a
/// user leaves it so: with a list or a user go the gifts placed on the list
/// or for the user.
pub proof fn lemma_removals_keep_placed(t: Tables, gift: Seq<char>, list: Seq<char>, user: Seq<char>)
    requires
        t.placed_for_members(),
    ensures
        t.without_gift(gift).placed_for_members(),
        t.without_list(list).placed_for_members(),
        t.without_user(user).placed_for_members(),
{
    let a = t.without_gift(gift);
    assert forall|i: int| 0 <= i < a.list_gifts.len() implies a.has_member(
        (#[trigger] a.list_gifts[i]).list_uuid,
        a.list_gifts[i].user_uuid,
    ) by {
        let m = lemma_filter_member(t.list_gifts, Tables::keeps_placement_fn(gift), i);
        assert(t.has_member(t.list_gifts[m].list_uuid, t.list_gifts[m].user_uuid));
    }
    let b = t.without_list(list);
    assert forall|i: int| 0 <= i < b.list_gifts.len() implies b.has_member(
        (#[trigger] b.list_gifts[i]).list_uuid,
        b.list_gifts[i].user_uuid,
    ) by {
        let p = b.list_gifts[i];
        let m = lemma_filter_member(t.list_gifts, Tables::placement_off_list_fn(list), i);
        assert(t.has_member(t.list_gifts[m].list_uuid, t.list_gifts[m].user_uuid));
        lemma_filter_keeps_first(
            t.members,
            Tables::member_off_list_fn(list),
            member_is(p.list_uuid, p.user_uuid),
        );
    }
    let c = t.without_user(user);
    assert forall|i: int| 0 <= i < c.list_gifts.len() implies c.has_member(
        (#[trigger] c.list_gifts[i]).list_uuid,
        c.list_gifts[i].user_uuid,
    ) by {
        let p = c.list_gifts[i];
        let m = lemma_filter_member(t.list_gifts, Tables::placement_survives_fn(t.lists, user), i);
        assert(t.has_member(t.list_gifts[m].list_uuid, t.list_gifts[m].user_uuid));
        lemma_filter_keeps_first(
            t.members,
            Tables::member_survives_fn(t.lists, user),
            member_is(p.list_uuid, p.user_uuid),
        );
    }
}

/// What removing a list does. The list is gone, with every membership row
/// and every placement of it, and every gift that was placed on it. The
/// users, the other lists, and the gifts that were not placed on it stay as
/// they are.
pub proof fn lemma_without_list_removes_its_rows(t: Tables, list: Seq<char>)
    ensures
        t.without_list(list).users == t.users,
        t.without_list(list).list_by_uuid(list) is None,
        forall|i: int|
            0 <= i < t.without_list(list).members.len() ==> (
            #[trigger] t.without_list(list).members[i]).list_uuid != list,
        forall|i: int|
            0 <= i < t.without_list(list).list_gifts.len() ==> (
            #[trigger] t.without_list(list).list_gifts[i]).list_uuid != list,
        forall|i: int|
            0 <= i < t.without_list(list).gifts.len() ==> !gift_on_list(
                t.list_gifts,
                (#[trigger] t.without_list(list).gifts[i]).gift_uuid,
                list,
            ),
        forall|i: int|
            0 <= i < t.lists.len() && t.lists[i].list_uuid != list ==> t.without_list(
                list,
            ).lists.contains(#[trigger] t.lists[i]),
        forall|i: int|
            0 <= i < t.members.len() && t.members[i].list_uuid != list ==> t.without_list(
                list,
            ).members.contains(#[trigger] t.members[i]),
        forall|i: int|
            0 <= i < t.gifts.len() && !gift_on_list(t.list_gifts, t.gifts[i].gift_uuid, list)
                ==> t.without_list(list).gifts.contains(#[trigger] t.gifts[i]),
        forall|i: int|
            0 <= i < t.list_gifts.len() && t.list_gifts[i].list_uuid != list ==> t.without_list(
                list,
            ).list_gifts.contains(#[trigger] t.list_gifts[i]),
{
    let after = t.without_list(list);
    let keep_list = Tables::list_is_not_fn(list);
    let keep_member = Tables::member_off_list_fn(list);
    let keep_gift = Tables::gift_off_list_fn(t.list_gifts, list);
    let keep_placement = Tables::placement_off_list_fn(list);
    assert forall|i: int| 0 <= i < after.lists.len() implies !list_has_uuid(list)(
        #[trigger] after.lists[i],
    ) by {
        let m = lemma_filter_member(t.lists, keep_list, i);
    }
    lemma_find_first_none(after.lists, list_has_uuid(list));
    assert forall|i: int| 0 <= i < after.members.len() implies (
    #[trigger] after.members[i]).list_uuid != list by {
        let m = lemma_filter_member(t.members, keep_member, i);
    }
    assert forall|i: int| 0 <= i < after.list_gifts.len() implies (
    #[trigger] after.list_gifts[i]).list_uuid != list by {
        let m = lemma_filter_member(t.list_gifts, keep_placement, i);
    }
    assert forall|i: int| 0 <= i < after.gifts.len() implies !gift_on_list(
        t.list_gifts,
        (#[trigger] after.gifts[i]).gift_uuid,
        list,
    ) by {
        let m = lemma_filter_member(t.gifts, keep_gift, i);
    }
    assert forall|i: int| 0 <= i < t.lists.len() && t.lists[i].list_uuid != list implies after.lists.contains(
        #[trigger] t.lists[i],
    ) by {
        assert(keep_list(t.lists[i]));
        t.lists.lemma_filter_contains(keep_list, i);
    }
    assert forall|i: int|
        0 <= i < t.members.len() && t.members[i].list_uuid != list implies after.members.contains(
        #[trigger] t.members[i],
    ) by {
        assert(keep_member(t.members[i]));
        t.members.lemma_filter_contains(keep_member, i);
    }
    assert forall|i: int|
        0 <= i < t.gifts.len() && !gift_on_list(
            t.list_gifts,
            t.gifts[i].gift_uuid,
            list,
        ) implies after.gifts.contains(#[trigger] t.gifts[i]) by {
        assert(keep_gift(t.gifts[i]));
        t.gifts.lemma_filter_contains(keep_gift, i);
    }
    assert forall|i: int|
        0 <= i < t.list_gifts.len() && t.list_gifts[i].list_uuid
            != list implies after.list_gifts.contains(#[trigger] t.list_gifts[i]) by {
        assert(keep_placement(t.list_gifts[i]));
        t.list_gifts.lemma_filter_contains(keep_placement, i);
    }
}

} // verus!
