//! Replacing a member's whole gift list by the one they submit.
//!
//! A submitted gift names a stored gift, or carries a placeholder or nothing
//! and is new. New gifts get fresh identifiers, and all of them are known
//! before any gift is written, so that a gift may be the alternate to one
//! that is submitted later in the same list. Stored gifts that the list
//! leaves out are deleted; then the submitted gifts are created or updated
//! in their order. The writes are applied one by one: where a gift is
//! refused, the writes before it stand.

use crate::data::{FormGift, FormGiftView, Gift, GiftView};
use crate::db::DbConn;
use crate::failure::{outcome, Failure, FailureView};
use crate::ident::{is_placeholder, is_placeholder_id, is_uuid_text, needs_new_id, new_uuid};
use crate::seqs::views;
use crate::tables::Tables;
use crate::store_laws::{
    lemma_with_gift_claims, lemma_with_gift_details_claims, lemma_with_gift_details_wf,
    lemma_with_gift_wf, lemma_without_gift_claims, lemma_without_gift_wf,
};
use vstd::prelude::*;

verus! {

/// The map that a sequence of insertions builds; a later entry replaces an
/// earlier one of the same name.
pub open spec fn entries_map(e: Seq<(Seq<char>, Seq<char>)>) -> Map<Seq<char>, Seq<char>>
    decreases e.len(),
{
    if e.len() == 0 {
        Map::empty()
    } else {
        entries_map(e.drop_last()).insert(e.last().0, e.last().1)
    }
}

proof fn lemma_entries_found(e: Seq<(Seq<char>, Seq<char>)>, k: int, name: Seq<char>)
    requires
        0 <= k < e.len(),
        e[k].0 == name,
        forall|j: int| k < j < e.len() ==> (#[trigger] e[j]).0 != name,
    ensures
        entries_map(e).contains_key(name),
        entries_map(e)[name] == e[k].1,
    decreases e.len(),
{
    if k < e.len() - 1 {
        assert(e.last().0 != name);
        assert(e.drop_last()[k] == e[k]);
        assert forall|j: int| k < j < e.drop_last().len() implies (#[trigger] e.drop_last()[j]).0
            != name by {
            assert(e.drop_last()[j] == e[j]);
        }
        lemma_entries_found(e.drop_last(), k, name);
    }
}

proof fn lemma_entries_absent(e: Seq<(Seq<char>, Seq<char>)>, name: Seq<char>)
    requires
        forall|j: int| 0 <= j < e.len() ==> (#[trigger] e[j]).0 != name,
    ensures
        !entries_map(e).contains_key(name),
    decreases e.len(),
{
    if e.len() > 0 {
        assert(e.last().0 != name);
        assert forall|j: int| 0 <= j < e.drop_last().len() implies (#[trigger] e.drop_last()[j]).0
            != name by {
            assert(e.drop_last()[j] == e[j]);
        }
        lemma_entries_absent(e.drop_last(), name);
    }
}

/// From placeholders to the identifiers minted for them.
pub struct PlaceholderMap {
    entries: Vec<(String, String)>,
}

impl View for PlaceholderMap {
    type V = Map<Seq<char>, Seq<char>>;

    closed spec fn view(&self) -> Map<Seq<char>, Seq<char>> {
        entries_map(views(self.entries@))
    }
}

impl PlaceholderMap {
    /// The map without entries.
    pub fn new() -> (m: PlaceholderMap)
        ensures
            m@ == Map::<Seq<char>, Seq<char>>::empty(),
    {
        PlaceholderMap { entries: Vec::new() }
    }

    /// Maps `name` to `id`, in place of what it was mapped to.
    pub fn insert(&mut self, name: String, id: String)
        ensures
            final(self)@ == old(self)@.insert(name@, id@),
    {
        self.entries.push((name, id));
        assert(views(self.entries@).drop_last() =~= views(old(self).entries@));
    }

    /// What `name` is mapped to.
    pub fn get(&self, name: &String) -> (r: Option<String>)
        ensures
            match r {
                Some(id) => self@.contains_key(name@) && id@ == self@[name@],
                None => !self@.contains_key(name@),
            },
    {
        let ghost e = views(self.entries@);
        let mut i: usize = self.entries.len();
        while i > 0
            invariant
                i <= self.entries.len(),
                e == views(self.entries@),
                forall|j: int| i <= j < e.len() ==> (#[trigger] e[j]).0 != name@,
            decreases i,
        {
            i -= 1;
            if self.entries[i].0 == *name {
                proof {
                    lemma_entries_found(e, i as int, name@);
                }
                return Some(self.entries[i].1.clone());
            }
        }
        proof {
            lemma_entries_absent(e, name@);
        }
        None
    }
}

/// The placeholders of the first `n` submitted gifts, each mapped to the
/// identifier minted for its gift.
pub open spec fn placeholder_map(gifts: Seq<FormGiftView>, minted: Seq<Seq<char>>, n: nat) -> Map<
    Seq<char>,
    Seq<char>,
>
    decreases n,
{
    if n == 0 {
        Map::empty()
    } else {
        let before = placeholder_map(gifts, minted, (n - 1) as nat);
        if is_placeholder(gifts[n - 1].uuid) {
            before.insert(gifts[n - 1].uuid, minted[n - 1])
        } else {
            before
        }
    }
}

/// The gift that an alternate-to field names: none where it is empty, the
/// minted identifier where it is a placeholder, itself otherwise.
pub open spec fn resolve_alternate(alt: Seq<char>, map: Map<Seq<char>, Seq<char>>) -> Result<
    Option<Seq<char>>,
    FailureView,
> {
    if is_placeholder(alt) {
        if map.contains_key(alt) {
            Ok(Some(map[alt]))
        } else {
            Err(FailureView::UnknownPlaceholder)
        }
    } else if alt.len() == 0 {
        Ok(None)
    } else {
        Ok(Some(alt))
    }
}

/// The identifier under which a new submitted gift is stored.
pub open spec fn new_id(g: FormGiftView, minted: Seq<char>, map: Map<Seq<char>, Seq<char>>) -> Seq<char> {
    if g.uuid.len() == 0 {
        minted
    } else {
        map[g.uuid]
    }
}

/// The gift that a new submitted gift becomes: owned by the member who
/// submits it, and unclaimed.
pub open spec fn new_gift(id: Seq<char>, owner: Seq<char>, g: FormGiftView, alt: Option<Seq<char>>) -> GiftView {
    GiftView {
        uuid: id,
        owner: owner,
        url: g.url,
        comment: g.comment,
        claimed: false,
        claimed_by: None,
        alternate_to_uuid: alt,
    }
}

/// Creating or updating one submitted gift: the result and the store
/// afterwards. A failure leaves the store as it was.
pub open spec fn upsert_one(
    t: Tables,
    list: Seq<char>,
    acting: Seq<char>,
    g: FormGiftView,
    minted: Seq<char>,
    map: Map<Seq<char>, Seq<char>>,
) -> (Result<(), FailureView>, Tables) {
    match resolve_alternate(g.alternate_to_uuid, map) {
        Err(e) => (Err(e), t),
        Ok(alt) => if needs_new_id(g.uuid) {
            let id = new_id(g, minted, map);
            if g.uuid.len() != 0 && !map.contains_key(g.uuid) {
                (Err(FailureView::UnknownPlaceholder), t)
            } else if t.gift_by_uuid(id) is Some {
                (Err(FailureView::StoreFailure), t)
            } else {
                (Ok(()), t.with_gift(new_gift(id, acting, g, alt), list))
            }
        } else {
            match t.gift_by_uuid(g.uuid) {
                None => (Err(FailureView::NotFound), t),
                Some(row) => if row.user_uuid != acting {
                    (Err(FailureView::Forbidden), t)
                } else {
                    (Ok(()), t.with_gift_details(g.uuid, g.url, g.comment))
                },
            }
        },
    }
}

/// Creating or updating the first `n` submitted gifts in their order,
/// stopping at the first that fails.
pub open spec fn upsert_upto(
    t: Tables,
    list: Seq<char>,
    acting: Seq<char>,
    gifts: Seq<FormGiftView>,
    minted: Seq<Seq<char>>,
    map: Map<Seq<char>, Seq<char>>,
    n: nat,
) -> (Result<(), FailureView>, Tables)
    decreases n,
{
    if n == 0 {
        (Ok(()), t)
    } else {
        let before = upsert_upto(t, list, acting, gifts, minted, map, (n - 1) as nat);
        match before.0 {
            Err(_) => before,
            Ok(_) => upsert_one(before.1, list, acting, gifts[n - 1], minted[n - 1], map),
        }
    }
}

/// The submitted list names the stored gift `id`.
pub open spec fn submitted(gifts: Seq<FormGiftView>, id: Seq<char>) -> bool {
    !is_placeholder(id) && exists|i: int| 0 <= i < gifts.len() && (#[trigger] gifts[i]).uuid == id
}

/// The store without those of the first `n` gifts of `existing` that the
/// submitted list leaves out.
pub open spec fn delete_stale_upto(t: Tables, existing: Seq<GiftView>, gifts: Seq<FormGiftView>, n: nat) -> Tables
    decreases n,
{
    if n == 0 {
        t
    } else {
        let before = delete_stale_upto(t, existing, gifts, (n - 1) as nat);
        if submitted(gifts, existing[n - 1].uuid) {
            before
        } else {
            before.without_gift(existing[n - 1].uuid)
        }
    }
}

/// `user` is a member of `list`.
pub open spec fn is_member(t: Tables, user: Seq<char>, list: Seq<char>) -> bool {
    exists|i: int|
        0 <= i < t.lists_of_user(user).len() && (#[trigger] t.lists_of_user(user)[i]).uuid == list
}

/// Replacing the gifts of `acting` on `list` by `gifts`, with `minted[i]` the
/// fresh identifier at hand for the gift `gifts[i]`: the result and the store
/// afterwards.
pub open spec fn reconcile_of(
    t: Tables,
    list: Seq<char>,
    acting: Seq<char>,
    gifts: Seq<FormGiftView>,
    minted: Seq<Seq<char>>,
) -> (Result<(), FailureView>, Tables) {
    if !is_member(t, acting, list) {
        (Err(FailureView::Unauthorized), t)
    } else {
        let map = placeholder_map(gifts, minted, gifts.len());
        let existing = t.gifts_of_list_user(list, acting, acting);
        let kept = delete_stale_upto(t, existing, gifts, existing.len());
        upsert_upto(kept, list, acting, gifts, minted, map, gifts.len())
    }
}

/// Once a gift has failed, the gifts after it change nothing.
pub proof fn lemma_upsert_stops(
    t: Tables,
    list: Seq<char>,
    acting: Seq<char>,
    gifts: Seq<FormGiftView>,
    minted: Seq<Seq<char>>,
    map: Map<Seq<char>, Seq<char>>,
    k: nat,
    n: nat,
)
    requires
        k <= n,
        upsert_upto(t, list, acting, gifts, minted, map, k).0 is Err,
    ensures
        upsert_upto(t, list, acting, gifts, minted, map, n) == upsert_upto(
            t,
            list,
            acting,
            gifts,
            minted,
            map,
            k,
        ),
    decreases n,
{
    if k < n {
        lemma_upsert_stops(t, list, acting, gifts, minted, map, k, (n - 1) as nat);
    }
}

fn member_of(conn: &DbConn, user: &String, list: &String) -> (b: bool)
    ensures
        b == is_member(conn@, user@, list@),
{
    let lists = conn.lists_of_user(user.clone());
    let mut i: usize = 0;
    while i < lists.len()
        invariant
            i <= lists.len(),
            lists.deep_view() == conn@.lists_of_user(user@),
            forall|j: int| 0 <= j < i ==> (#[trigger] lists.deep_view()[j]).uuid != list@,
        decreases lists.len() - i,
    {
        if lists[i].uuid == *list {
            assert(lists.deep_view()[i as int].uuid == list@);
            return true;
        }
        i += 1;
    }
    false
}

fn build_map(gifts: &Vec<FormGift>, minted: &Vec<String>) -> (map: PlaceholderMap)
    requires
        minted@.len() == gifts@.len(),
    ensures
        map@ == placeholder_map(gifts.deep_view(), minted.deep_view(), gifts@.len()),
{
    let mut map = PlaceholderMap::new();
    let mut i: usize = 0;
    while i < gifts.len()
        invariant
            i <= gifts.len(),
            minted@.len() == gifts@.len(),
            map@ == placeholder_map(gifts.deep_view(), minted.deep_view(), i as nat),
        decreases gifts.len() - i,
    {
        if is_placeholder_id(&gifts[i].uuid) {
            map.insert(gifts[i].uuid.clone(), minted[i].clone());
        }
        i += 1;
    }
    map
}

fn is_submitted(gifts: &Vec<FormGift>, id: &String) -> (b: bool)
    ensures
        b == submitted(gifts.deep_view(), id@),
{
    if is_placeholder_id(id) {
        return false;
    }
    let mut i: usize = 0;
    while i < gifts.len()
        invariant
            i <= gifts.len(),
            !is_placeholder(id@),
            forall|j: int| 0 <= j < i ==> (#[trigger] gifts.deep_view()[j]).uuid != id@,
        decreases gifts.len() - i,
    {
        if gifts[i].uuid == *id {
            assert(gifts.deep_view()[i as int].uuid == id@);
            return true;
        }
        i += 1;
    }
    false
}

fn delete_stale(conn: &mut DbConn, existing: &Vec<Gift>, gifts: &Vec<FormGift>)
    ensures
        final(conn)@ == delete_stale_upto(
            old(conn)@,
            existing.deep_view(),
            gifts.deep_view(),
            existing@.len(),
        ),
{
    let mut i: usize = 0;
    while i < existing.len()
        invariant
            i <= existing.len(),
            conn@ == delete_stale_upto(old(conn)@, existing.deep_view(), gifts.deep_view(), i as nat),
        decreases existing.len() - i,
    {
        if !is_submitted(gifts, &existing[i].uuid) {
            conn.delete_gift(existing[i].uuid.clone());
        }
        i += 1;
    }
}

fn resolve(alt: &String, map: &PlaceholderMap) -> (r: Result<Option<String>, Failure>)
    ensures
        match r {
            Ok(a) => resolve_alternate(alt@, map@) == Ok::<Option<Seq<char>>, FailureView>(
                a.deep_view(),
            ),
            Err(e) => resolve_alternate(alt@, map@) == Err::<Option<Seq<char>>, FailureView>(e@),
        },
{
    if is_placeholder_id(alt) {
        match map.get(alt) {
            Some(id) => Ok(Some(id)),
            None => Err(Failure::UnknownPlaceholder),
        }
    } else if alt.as_str().is_empty() {
        Ok(None)
    } else {
        Ok(Some(alt.clone()))
    }
}

fn upsert(
    conn: &mut DbConn,
    list: &String,
    acting: &String,
    g: &FormGift,
    minted: &String,
    map: &PlaceholderMap,
) -> (r: Result<(), Failure>)
    ensures
        (outcome(r), final(conn)@) == upsert_one(old(conn)@, list@, acting@, g@, minted@, map@),
{
    let alt = match resolve(&g.alternate_to_uuid, map) {
        Ok(a) => a,
        Err(e) => {
            return Err(e);
        },
    };
    let fresh = if g.uuid.as_str().is_empty() {
        Some(minted.clone())
    } else if is_placeholder_id(&g.uuid) {
        match map.get(&g.uuid) {
            Some(id) => Some(id),
            None => {
                return Err(Failure::UnknownPlaceholder);
            },
        }
    } else {
        None
    };
    match fresh {
        Some(id) => {
            let gift = Gift {
                uuid: id,
                owner: acting.clone(),
                url: g.url.clone(),
                comment: g.comment.clone(),
                claimed: false,
                claimed_by: None,
                alternate_to_uuid: alt,
            };
            conn.create_gift(gift, list.clone())
        },
        None => {
            let stored = match conn.gift_from_uuid(g.uuid.clone(), acting.clone()) {
                Ok(s) => s,
                Err(_) => {
                    return Err(Failure::NotFound);
                },
            };
            if stored.owner != *acting {
                return Err(Failure::Forbidden);
            }
            conn.update_gift_details(g.uuid.clone(), g.url.clone(), g.comment.clone());
            Ok(())
        },
    }
}

fn upsert_all(
    conn: &mut DbConn,
    list: &String,
    acting: &String,
    gifts: &Vec<FormGift>,
    minted: &Vec<String>,
    map: &PlaceholderMap,
) -> (r: Result<(), Failure>)
    requires
        minted@.len() == gifts@.len(),
    ensures
        (outcome(r), final(conn)@) == upsert_upto(
            old(conn)@,
            list@,
            acting@,
            gifts.deep_view(),
            minted.deep_view(),
            map@,
            gifts@.len(),
        ),
{
    let mut i: usize = 0;
    while i < gifts.len()
        invariant
            i <= gifts.len(),
            minted@.len() == gifts@.len(),
            upsert_upto(
                old(conn)@,
                list@,
                acting@,
                gifts.deep_view(),
                minted.deep_view(),
                map@,
                i as nat,
            ) == (Ok::<(), FailureView>(()), conn@),
        decreases gifts.len() - i,
    {
        match upsert(conn, list, acting, &gifts[i], &minted[i], map) {
            Ok(()) => {},
            Err(e) => {
                proof {
                    lemma_upsert_stops(
                        old(conn)@,
                        list@,
                        acting@,
                        gifts.deep_view(),
                        minted.deep_view(),
                        map@,
                        (i + 1) as nat,
                        gifts@.len(),
                    );
                }
                return Err(e);
            },
        }
        i += 1;
    }
    Ok(())
}

/// Replaces the gifts of `acting_user` on the list `list_uuid` by `gifts`,
/// storing the new gift `gifts[i]` under `minted[i]` where it carries no
/// placeholder, and under the identifier minted for the last gift with its
/// placeholder where it carries one.
pub fn reconcile_with(
    conn: &mut DbConn,
    list_uuid: &String,
    acting_user: &String,
    gifts: &Vec<FormGift>,
    minted: &Vec<String>,
) -> (r: Result<(), Failure>)
    requires
        minted@.len() == gifts@.len(),
    ensures
        (outcome(r), final(conn)@) == reconcile_of(
            old(conn)@,
            list_uuid@,
            acting_user@,
            gifts.deep_view(),
            minted.deep_view(),
        ),
        old(conn)@.wf() ==> final(conn)@.wf(),
        old(conn)@.claims_consistent() ==> final(conn)@.claims_consistent(),
{
    proof {
        lemma_reconcile_keeps_wf(
            old(conn)@,
            list_uuid@,
            acting_user@,
            gifts.deep_view(),
            minted.deep_view(),
        );
    }
    if !member_of(conn, acting_user, list_uuid) {
        return Err(Failure::Unauthorized);
    }
    let map = build_map(gifts, minted);
    let existing = conn.gifts_of_list_user(list_uuid.clone(), acting_user.clone(), acting_user.clone());
    delete_stale(conn, &existing, gifts);
    upsert_all(conn, list_uuid, acting_user, gifts, minted, &map)
}

/// `minted` holds one entry for each submitted gift, and a well-shaped
/// identifier for each gift that is new.
pub open spec fn minted_for(gifts: Seq<FormGiftView>, minted: Seq<Seq<char>>) -> bool {
    &&& minted.len() == gifts.len()
    &&& forall|i: int|
        0 <= i < gifts.len() && needs_new_id(gifts[i].uuid) ==> is_uuid_text(#[trigger] minted[i])
}

pub(crate) fn mint_ids(gifts: &Vec<FormGift>) -> (minted: Vec<String>)
    ensures
        minted_for(gifts.deep_view(), minted.deep_view()),
{
    let mut minted: Vec<String> = Vec::new();
    let mut i: usize = 0;
    while i < gifts.len()
        invariant
            i <= gifts.len(),
            minted@.len() == i,
            forall|j: int|
                0 <= j < i && needs_new_id(gifts.deep_view()[j].uuid) ==> is_uuid_text(
                    #[trigger] minted.deep_view()[j],
                ),
        decreases gifts.len() - i,
    {
        let ghost before = minted.deep_view();
        if gifts[i].uuid.as_str().is_empty() || is_placeholder_id(&gifts[i].uuid) {
            minted.push(new_uuid());
        } else {
            minted.push(String::new());
        }
        assert forall|j: int|
            0 <= j < i + 1 && needs_new_id(gifts.deep_view()[j].uuid) implies is_uuid_text(
            #[trigger] minted.deep_view()[j],
        ) by {
            if j < i {
                assert(minted.deep_view()[j] == before[j]);
            }
        }
        i += 1;
    }
    minted
}

/// Replaces the gifts of `acting_user` on the list `list_uuid` by `gifts`.
/// The identifiers of the new gifts are drawn at random; whichever are
/// drawn, the store ends as `reconcile_of` says for them.
pub fn reconcile(conn: &mut DbConn, list_uuid: &String, acting_user: &String, gifts: &Vec<FormGift>) -> (r:
    Result<(), Failure>)
    ensures
        exists|minted: Seq<Seq<char>>|
            minted_for(gifts.deep_view(), minted) && #[trigger] reconcile_of(
                old(conn)@,
                list_uuid@,
                acting_user@,
                gifts.deep_view(),
                minted,
            ) == (outcome(r), final(conn)@),
        old(conn)@.wf() ==> final(conn)@.wf(),
        old(conn)@.claims_consistent() ==> final(conn)@.claims_consistent(),
{
    let minted = mint_ids(gifts);
    let r = reconcile_with(conn, list_uuid, acting_user, gifts, &minted);
    assert(reconcile_of(
        old(conn)@,
        list_uuid@,
        acting_user@,
        gifts.deep_view(),
        minted.deep_view(),
    ) == (outcome(r), conn@));
    r
}

/// Creating or updating one gift keeps the store well formed, and every
/// gift claimed exactly where it names a claimer.
pub proof fn lemma_upsert_one_keeps(
    t: Tables,
    list: Seq<char>,
    acting: Seq<char>,
    g: FormGiftView,
    minted: Seq<char>,
    map: Map<Seq<char>, Seq<char>>,
)
    ensures
        t.wf() ==> upsert_one(t, list, acting, g, minted, map).1.wf(),
        t.claims_consistent() ==> upsert_one(t, list, acting, g, minted, map).1.claims_consistent(),
{
    match resolve_alternate(g.alternate_to_uuid, map) {
        Err(_) => {},
        Ok(alt) => {
            let id = new_id(g, minted, map);
            if t.wf() {
                if t.gift_by_uuid(id) is None {
                    lemma_with_gift_wf(t, new_gift(id, acting, g, alt), list);
                }
                lemma_with_gift_details_wf(t, g.uuid, g.url, g.comment);
            }
            if t.claims_consistent() {
                lemma_with_gift_claims(t, new_gift(id, acting, g, alt), list);
                lemma_with_gift_details_claims(t, g.uuid, g.url, g.comment);
            }
        },
    }
}

/// So does creating or updating any number of gifts.
pub proof fn lemma_upsert_keeps(
    t: Tables,
    list: Seq<char>,
    acting: Seq<char>,
    gifts: Seq<FormGiftView>,
    minted: Seq<Seq<char>>,
    map: Map<Seq<char>, Seq<char>>,
    n: nat,
)
    ensures
        t.wf() ==> upsert_upto(t, list, acting, gifts, minted, map, n).1.wf(),
        t.claims_consistent() ==> upsert_upto(
            t,
            list,
            acting,
            gifts,
            minted,
            map,
            n,
        ).1.claims_consistent(),
    decreases n,
{
    if n > 0 {
        lemma_upsert_keeps(t, list, acting, gifts, minted, map, (n - 1) as nat);
        let before = upsert_upto(t, list, acting, gifts, minted, map, (n - 1) as nat);
        lemma_upsert_one_keeps(before.1, list, acting, gifts[n - 1], minted[n - 1], map);
    }
}

/// So does deleting the gifts that a list leaves out.
pub proof fn lemma_delete_stale_keeps(t: Tables, existing: Seq<GiftView>, gifts: Seq<FormGiftView>, n: nat)
    ensures
        t.wf() ==> delete_stale_upto(t, existing, gifts, n).wf(),
        t.claims_consistent() ==> delete_stale_upto(t, existing, gifts, n).claims_consistent(),
    decreases n,
{
    if n > 0 {
        lemma_delete_stale_keeps(t, existing, gifts, (n - 1) as nat);
        let before = delete_stale_upto(t, existing, gifts, (n - 1) as nat);
        if before.wf() {
            lemma_without_gift_wf(before, existing[n - 1].uuid);
        }
        if before.claims_consistent() {
            lemma_without_gift_claims(before, existing[n - 1].uuid);
        }
    }
}

/// However a call ends, it leaves the store well formed, and every gift
/// claimed exactly where it names a claimer.
pub proof fn lemma_reconcile_keeps_wf(
    t: Tables,
    list: Seq<char>,
    acting: Seq<char>,
    gifts: Seq<FormGiftView>,
    minted: Seq<Seq<char>>,
)
    ensures
        t.wf() ==> reconcile_of(t, list, acting, gifts, minted).1.wf(),
        t.claims_consistent() ==> reconcile_of(t, list, acting, gifts, minted).1.claims_consistent(),
{
    let map = placeholder_map(gifts, minted, gifts.len());
    let existing = t.gifts_of_list_user(list, acting, acting);
    lemma_delete_stale_keeps(t, existing, gifts, existing.len());
    let kept = delete_stale_upto(t, existing, gifts, existing.len());
    lemma_upsert_keeps(kept, list, acting, gifts, minted, map, gifts.len());
}

} // verus!
