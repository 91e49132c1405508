//! The store: five tables, and the queries and statements that the rest of
//! the library runs against them.

use crate::data::{Gift, List, User, UserView};
use crate::failure::{Failure, FailureView};
use crate::seqs::{find_row, keys_are_distinct, retain_rows, views};
use crate::tables::{
    claimer_record, gift_details_fn, gift_has_uuid, gift_key, gift_on_list, gift_on_list_of,
    list_has_uuid, list_key, list_owned_by, list_record, member_is, modify_gift_fn, modify_list_fn,
    modify_user_fn, owns_list, placement_key, placement_of, placement_on_list_of, user_has_email,
    user_has_token, user_has_uuid, user_key, user_record, GiftRow, ListGiftRow, ListRow, MemberRow,
    Tables, UserRow,
};
use crate::store_laws::{
    lemma_empty_wf, lemma_with_gift_details_wf, lemma_with_gift_modified_wf, lemma_with_gift_wf,
    lemma_with_list_modified_wf, lemma_with_list_wf, lemma_with_member_wf,
    lemma_with_user_modified_wf, lemma_with_user_wf, lemma_without_gift_wf, lemma_without_list_wf,
    lemma_without_user_wf,
};
use vstd::prelude::*;

verus! {

/// The store. Rows stay in the order in which they were inserted.
pub struct DbConn {
    users: Vec<UserRow>,
    lists: Vec<ListRow>,
    members: Vec<MemberRow>,
    gifts: Vec<GiftRow>,
    list_gifts: Vec<ListGiftRow>,
}

impl View for DbConn {
    type V = Tables;

    closed spec fn view(&self) -> Tables {
        Tables {
            users: views(self.users@),
            lists: views(self.lists@),
            members: views(self.members@),
            gifts: views(self.gifts@),
            list_gifts: views(self.list_gifts@),
        }
    }
}

fn show_user(u: &UserRow, current: &String) -> (r: User)
    ensures
        r@ == user_record(u@, current@),
{
    User {
        uuid: u.user_uuid.clone(),
        email: u.email.clone(),
        name: u.name.clone(),
        can_create: u.can_create,
        is_me: *current == u.user_uuid,
    }
}

fn show_claimer(u: &UserRow, current: &String) -> (r: User)
    ensures
        r@ == claimer_record(u@, current@),
{
    User {
        uuid: u.user_uuid.clone(),
        email: String::new(),
        name: u.name.clone(),
        can_create: false,
        is_me: u.user_uuid == *current,
    }
}

fn show_list(l: &ListRow, current: &String) -> (r: List)
    ensures
        r@ == list_record(l@, current@),
{
    List {
        uuid: l.list_uuid.clone(),
        name: l.name.clone(),
        owner: l.owner.clone(),
        im_owner: *current == l.owner,
    }
}

fn placed_on_list(placements: &Vec<ListGiftRow>, gift: &String, list: &String) -> (b: bool)
    ensures
        b == gift_on_list(views(placements@), gift@, list@),
{
    let wanted = |p: &ListGiftRow| -> (b: bool)
        ensures
            b == placement_of(gift@, list@)(p.deep_view()),
    {
        p.gift_uuid == *gift && p.list_uuid == *list
    };
    find_row(placements, wanted, Ghost(placement_of(gift@, list@))).is_some()
}

fn is_owner_of(lists: &Vec<ListRow>, owner: &String, list: &String) -> (b: bool)
    ensures
        b == owns_list(views(lists@), owner@, list@),
{
    let wanted = |l: &ListRow| -> (b: bool)
        ensures
            b == list_owned_by(list@, owner@)(l.deep_view()),
    {
        l.list_uuid == *list && l.owner == *owner
    };
    find_row(lists, wanted, Ghost(list_owned_by(list@, owner@))).is_some()
}

fn placed_on_list_of(placements: &Vec<ListGiftRow>, lists: &Vec<ListRow>, gift: &String, owner: &String) -> (b:
    bool)
    ensures
        b == gift_on_list_of(views(placements@), views(lists@), gift@, owner@),
{
    let wanted = |p: &ListGiftRow| -> (b: bool)
        ensures
            b == placement_on_list_of(views(lists@), gift@, owner@)(p.deep_view()),
    {
        p.gift_uuid == *gift && is_owner_of(lists, owner, &p.list_uuid)
    };
    find_row(placements, wanted, Ghost(placement_on_list_of(views(lists@), gift@, owner@))).is_some()
}

fn clone_text(o: &Option<String>) -> (r: Option<String>)
    ensures
        r == *o,
{
    match o {
        Some(s) => Some(s.clone()),
        None => None,
    }
}

impl DbConn {
    /// A store with the five tables and no row in them.
    pub fn init_db() -> (conn: DbConn)
        ensures
            conn@ == Tables::empty(),
            conn@.wf(),
    {
        let conn = DbConn {
            users: Vec::new(),
            lists: Vec::new(),
            members: Vec::new(),
            gifts: Vec::new(),
            list_gifts: Vec::new(),
        };
        assert(conn@.users =~= Seq::empty());
        assert(conn@.lists =~= Seq::empty());
        assert(conn@.members =~= Seq::empty());
        assert(conn@.gifts =~= Seq::empty());
        assert(conn@.list_gifts =~= Seq::empty());
        proof {
            lemma_empty_wf();
        }
        conn
    }

    /// The store that holds the given rows, where they are well formed:
    /// identifiers are keys, the owner of every list is a member of it, no
    /// gift is placed twice, and every row that places a gift names a gift
    /// with its owner.
    pub fn from_rows(
        users: Vec<UserRow>,
        lists: Vec<ListRow>,
        members: Vec<MemberRow>,
        gifts: Vec<GiftRow>,
        list_gifts: Vec<ListGiftRow>,
    ) -> (r: Option<DbConn>)
        ensures
            match r {
                Some(conn) => conn@.wf() && conn@ == (Tables {
                    users: users.deep_view(),
                    lists: lists.deep_view(),
                    members: members.deep_view(),
                    gifts: gifts.deep_view(),
                    list_gifts: list_gifts.deep_view(),
                }),
                None => !(Tables {
                    users: users.deep_view(),
                    lists: lists.deep_view(),
                    members: members.deep_view(),
                    gifts: gifts.deep_view(),
                    list_gifts: list_gifts.deep_view(),
                }).wf(),
            },
    {
        let conn = DbConn { users, lists, members, gifts, list_gifts };
        assert(conn@.users =~= users.deep_view());
        assert(conn@.lists =~= lists.deep_view());
        assert(conn@.members =~= members.deep_view());
        assert(conn@.gifts =~= gifts.deep_view());
        assert(conn@.list_gifts =~= list_gifts.deep_view());
        if conn.is_wf() {
            Some(conn)
        } else {
            None
        }
    }

    fn is_wf(&self) -> (b: bool)
        ensures
            b == self@.wf(),
    {
        let same_user = |x: &UserRow, y: &UserRow| -> (b: bool)
            ensures
                b == (user_key()(x.deep_view()) == user_key()(y.deep_view())),
        {
            x.user_uuid == y.user_uuid
        };
        if !keys_are_distinct(&self.users, same_user, Ghost(user_key())) {
            return false;
        }
        let same_list = |x: &ListRow, y: &ListRow| -> (b: bool)
            ensures
                b == (list_key()(x.deep_view()) == list_key()(y.deep_view())),
        {
            x.list_uuid == y.list_uuid
        };
        if !keys_are_distinct(&self.lists, same_list, Ghost(list_key())) {
            return false;
        }
        let same_gift = |x: &GiftRow, y: &GiftRow| -> (b: bool)
            ensures
                b == (gift_key()(x.deep_view()) == gift_key()(y.deep_view())),
        {
            x.gift_uuid == y.gift_uuid
        };
        if !keys_are_distinct(&self.gifts, same_gift, Ghost(gift_key())) {
            return false;
        }
        let same_placement = |x: &ListGiftRow, y: &ListGiftRow| -> (b: bool)
            ensures
                b == (placement_key()(x.deep_view()) == placement_key()(y.deep_view())),
        {
            x.gift_uuid == y.gift_uuid
        };
        if !keys_are_distinct(&self.list_gifts, same_placement, Ghost(placement_key())) {
            return false;
        }
        let mut i: usize = 0;
        while i < self.list_gifts.len()
            invariant
                i <= self.list_gifts.len(),
                forall|j: int| 0 <= j < i ==> self@.resolves(#[trigger] self@.list_gifts[j]),
            decreases self.list_gifts.len() - i,
        {
            let p = &self.list_gifts[i];
            let resolves = match self.gift_at_uuid(&p.gift_uuid) {
                Some(k) => self.gifts[k].user_uuid == p.user_uuid,
                None => false,
            };
            if !resolves {
                assert(!self@.resolves(self@.list_gifts[i as int]));
                return false;
            }
            i += 1;
        }
        let mut i: usize = 0;
        while i < self.lists.len()
            invariant
                i <= self.lists.len(),
                self@.placements_resolve(),
                forall|j: int|
                    0 <= j < i ==> self@.has_member(
                        (#[trigger] self@.lists[j]).list_uuid,
                        self@.lists[j].owner,
                    ),
            decreases self.lists.len() - i,
        {
            let l = &self.lists[i];
            let wanted = |m: &MemberRow| -> (b: bool)
                ensures
                    b == member_is(l.list_uuid@, l.owner@)(m.deep_view()),
            {
                m.list_uuid == l.list_uuid && m.user_uuid == l.owner
            };
            if find_row(&self.members, wanted, Ghost(member_is(l.list_uuid@, l.owner@))).is_none() {
                assert(!self@.has_member(self@.lists[i as int].list_uuid, self@.lists[i as int].owner));
                return false;
            }
            i += 1;
        }
        true
    }

    /// The rows of the user table, in their order.
    pub fn user_rows(&self) -> (rows: Vec<UserRow>)
        ensures
            rows.deep_view() == self@.users,
    {
        let mut rows: Vec<UserRow> = Vec::new();
        let mut i: usize = 0;
        while i < self.users.len()
            invariant
                i <= self.users.len(),
                rows@ == self.users@.take(i as int),
            decreases self.users.len() - i,
        {
            rows.push(self.users[i].clone());
            assert(self.users@.take(i + 1) =~= self.users@.take(i as int).push(self.users@[i as int]));
            i += 1;
        }
        assert(self.users@.take(i as int) =~= self.users@);
        assert(rows.deep_view() =~= self@.users);
        rows
    }

    /// The rows of the list table, in their order.
    pub fn list_rows(&self) -> (rows: Vec<ListRow>)
        ensures
            rows.deep_view() == self@.lists,
    {
        let mut rows: Vec<ListRow> = Vec::new();
        let mut i: usize = 0;
        while i < self.lists.len()
            invariant
                i <= self.lists.len(),
                rows@ == self.lists@.take(i as int),
            decreases self.lists.len() - i,
        {
            rows.push(self.lists[i].clone());
            assert(self.lists@.take(i + 1) =~= self.lists@.take(i as int).push(self.lists@[i as int]));
            i += 1;
        }
        assert(self.lists@.take(i as int) =~= self.lists@);
        assert(rows.deep_view() =~= self@.lists);
        rows
    }

    /// The rows of the membership table, in their order.
    pub fn member_rows(&self) -> (rows: Vec<MemberRow>)
        ensures
            rows.deep_view() == self@.members,
    {
        let mut rows: Vec<MemberRow> = Vec::new();
        let mut i: usize = 0;
        while i < self.members.len()
            invariant
                i <= self.members.len(),
                rows@ == self.members@.take(i as int),
            decreases self.members.len() - i,
        {
            rows.push(self.members[i].clone());
            assert(self.members@.take(i + 1) =~= self.members@.take(i as int).push(
                self.members@[i as int],
            ));
            i += 1;
        }
        assert(self.members@.take(i as int) =~= self.members@);
        assert(rows.deep_view() =~= self@.members);
        rows
    }

    /// The rows of the gift table, in their order.
    pub fn gift_rows(&self) -> (rows: Vec<GiftRow>)
        ensures
            rows.deep_view() == self@.gifts,
    {
        let mut rows: Vec<GiftRow> = Vec::new();
        let mut i: usize = 0;
        while i < self.gifts.len()
            invariant
                i <= self.gifts.len(),
                rows@ == self.gifts@.take(i as int),
            decreases self.gifts.len() - i,
        {
            rows.push(self.gifts[i].clone());
            assert(self.gifts@.take(i + 1) =~= self.gifts@.take(i as int).push(self.gifts@[i as int]));
            i += 1;
        }
        assert(self.gifts@.take(i as int) =~= self.gifts@);
        assert(rows.deep_view() =~= self@.gifts);
        rows
    }

    /// The rows that place gifts on lists, in their order.
    pub fn list_gift_rows(&self) -> (rows: Vec<ListGiftRow>)
        ensures
            rows.deep_view() == self@.list_gifts,
    {
        let mut rows: Vec<ListGiftRow> = Vec::new();
        let mut i: usize = 0;
        while i < self.list_gifts.len()
            invariant
                i <= self.list_gifts.len(),
                rows@ == self.list_gifts@.take(i as int),
            decreases self.list_gifts.len() - i,
        {
            rows.push(self.list_gifts[i].clone());
            assert(self.list_gifts@.take(i + 1) =~= self.list_gifts@.take(i as int).push(
                self.list_gifts@[i as int],
            ));
            i += 1;
        }
        assert(self.list_gifts@.take(i as int) =~= self.list_gifts@);
        assert(rows.deep_view() =~= self@.list_gifts);
        rows
    }

    fn user_at_uuid(&self, uuid: &String) -> (r: Option<usize>)
        ensures
            match r {
                Some(i) => i < self.users.len() && self@.user_by_uuid(uuid@) == Some(
                    self.users[i as int]@,
                ),
                None => self@.user_by_uuid(uuid@) is None,
            },
    {
        let wanted = |u: &UserRow| -> (b: bool)
            ensures
                b == user_has_uuid(uuid@)(u.deep_view()),
        {
            u.user_uuid == *uuid
        };
        find_row(&self.users, wanted, Ghost(user_has_uuid(uuid@)))
    }

    fn list_at_uuid(&self, uuid: &String) -> (r: Option<usize>)
        ensures
            match r {
                Some(i) => i < self.lists.len() && self@.list_by_uuid(uuid@) == Some(
                    self.lists[i as int]@,
                ),
                None => self@.list_by_uuid(uuid@) is None,
            },
    {
        let wanted = |l: &ListRow| -> (b: bool)
            ensures
                b == list_has_uuid(uuid@)(l.deep_view()),
        {
            l.list_uuid == *uuid
        };
        find_row(&self.lists, wanted, Ghost(list_has_uuid(uuid@)))
    }

    fn gift_at_uuid(&self, uuid: &String) -> (r: Option<usize>)
        ensures
            match r {
                Some(i) => i < self.gifts.len() && self@.gift_by_uuid(uuid@) == Some(
                    self.gifts[i as int]@,
                ),
                None => self@.gift_by_uuid(uuid@) is None,
            },
    {
        let wanted = |g: &GiftRow| -> (b: bool)
            ensures
                b == gift_has_uuid(uuid@)(g.deep_view()),
        {
            g.gift_uuid == *uuid
        };
        find_row(&self.gifts, wanted, Ghost(gift_has_uuid(uuid@)))
    }

    /// The identifier of the first user whose token is `auth_token`.
    pub fn user_uuid_from_auth_token(&self, auth_token: String) -> (r: Result<String, Failure>)
        ensures
            match r {
                Ok(uuid) => self@.user_by_token(auth_token@) matches Some(u) && uuid@ == u.user_uuid,
                Err(e) => e@ == FailureView::NotFound && self@.user_by_token(auth_token@) is None,
            },
    {
        let wanted = |u: &UserRow| -> (b: bool)
            ensures
                b == user_has_token(auth_token@)(u.deep_view()),
        {
            u.auth_token == auth_token
        };
        let found = find_row(&self.users, wanted, Ghost(user_has_token(auth_token@)));
        match found {
            Some(i) => Ok(self.users[i].user_uuid.clone()),
            None => Err(Failure::NotFound),
        }
    }

    /// The token of the user `user_uuid`.
    pub fn auth_token_from_user(&self, user_uuid: String) -> (r: Result<String, Failure>)
        ensures
            match r {
                Ok(token) => self@.user_by_uuid(user_uuid@) matches Some(u) && token@ == u.auth_token,
                Err(e) => e@ == FailureView::NotFound && self@.user_by_uuid(user_uuid@) is None,
            },
    {
        match self.user_at_uuid(&user_uuid) {
            Some(i) => Ok(self.users[i].auth_token.clone()),
            None => Err(Failure::NotFound),
        }
    }

    /// The first user whose email is `email`, never marked as the viewer.
    pub fn user_from_email(&self, email: String) -> (r: Result<User, Failure>)
        ensures
            match r {
                Ok(user) => self@.user_by_email(email@) matches Some(u) && user@ == (UserView {
                    is_me: false,
                    ..user_record(u, Seq::empty())
                }),
                Err(e) => e@ == FailureView::NotFound && self@.user_by_email(email@) is None,
            },
    {
        let wanted = |u: &UserRow| -> (b: bool)
            ensures
                b == user_has_email(email@)(u.deep_view()),
        {
            u.email == email
        };
        let found = find_row(&self.users, wanted, Ghost(user_has_email(email@)));
        match found {
            Some(i) => {
                let u = &self.users[i];
                Ok(
                    User {
                        uuid: u.user_uuid.clone(),
                        email: u.email.clone(),
                        name: u.name.clone(),
                        can_create: u.can_create,
                        is_me: false,
                    },
                )
            },
            None => Err(Failure::NotFound),
        }
    }

    /// The user `user_uuid` as the viewer `current_uuid` sees them.
    pub fn user_from_uuid(&self, user_uuid: String, current_uuid: String) -> (r: Result<User, Failure>)
        ensures
            match r {
                Ok(user) => self@.user_by_uuid(user_uuid@) matches Some(u) && user@ == user_record(
                    u,
                    current_uuid@,
                ),
                Err(e) => e@ == FailureView::NotFound && self@.user_by_uuid(user_uuid@) is None,
            },
    {
        match self.user_at_uuid(&user_uuid) {
            Some(i) => Ok(show_user(&self.users[i], &current_uuid)),
            None => Err(Failure::NotFound),
        }
    }

    /// The list `list_uuid` as the viewer `current_user_uuid` sees it.
    pub fn list_from_uuid(&self, list_uuid: String, current_user_uuid: String) -> (r: Result<List, Failure>)
        ensures
            match r {
                Ok(list) => self@.list_by_uuid(list_uuid@) matches Some(l) && list@ == list_record(
                    l,
                    current_user_uuid@,
                ),
                Err(e) => e@ == FailureView::NotFound && self@.list_by_uuid(list_uuid@) is None,
            },
    {
        match self.list_at_uuid(&list_uuid) {
            Some(i) => Ok(show_list(&self.lists[i], &current_user_uuid)),
            None => Err(Failure::NotFound),
        }
    }

    fn show_gift(&self, g: &GiftRow, current: &String) -> (r: Gift)
        ensures
            r@ == self@.gift_record(g@, current@),
    {
        let claimed_by = match &g.claimed_by {
            Some(c) => match self.user_at_uuid(c) {
                Some(i) => Some(show_claimer(&self.users[i], current)),
                None => None,
            },
            None => None,
        };
        Gift {
            uuid: g.gift_uuid.clone(),
            owner: g.user_uuid.clone(),
            url: g.url.clone(),
            comment: g.comment.clone(),
            claimed: g.claimed,
            claimed_by,
            alternate_to_uuid: match &g.alternate_to {
                Some(a) => Some(a.clone()),
                None => None,
            },
        }
    }

    /// The gift `gift_uuid` as the viewer `current_user_uuid` sees it.
    pub fn gift_from_uuid(&self, gift_uuid: String, current_user_uuid: String) -> (r: Result<Gift, Failure>)
        ensures
            match r {
                Ok(gift) => self@.gift_by_uuid(gift_uuid@) matches Some(g) && gift@
                    == self@.gift_record(g, current_user_uuid@),
                Err(e) => e@ == FailureView::NotFound && self@.gift_by_uuid(gift_uuid@) is None,
            },
    {
        match self.gift_at_uuid(&gift_uuid) {
            Some(i) => Ok(self.show_gift(&self.gifts[i], &current_user_uuid)),
            None => Err(Failure::NotFound),
        }
    }

    /// The lists that `user_uuid` is a member of.
    pub fn lists_of_user(&self, user_uuid: String) -> (r: Vec<List>)
        ensures
            r.deep_view() == self@.lists_of_user(user_uuid@),
    {
        let ghost f = self@.list_of_member_fn(user_uuid@);
        let mut out: Vec<List> = Vec::new();
        let mut i: usize = 0;
        assert(self@.members.take(0).filter_map(f) =~= Seq::empty());
        while i < self.members.len()
            invariant
                i <= self.members.len(),
                f == self@.list_of_member_fn(user_uuid@),
                out.deep_view() =~= self@.members.take(i as int).filter_map(f),
            decreases self.members.len() - i,
        {
            let m = &self.members[i];
            proof {
                self@.members.lemma_filter_map_take_succ(f, i as int);
            }
            if m.user_uuid == user_uuid {
                match self.list_at_uuid(&m.list_uuid) {
                    Some(j) => {
                        out.push(show_list(&self.lists[j], &user_uuid));
                    },
                    None => {},
                }
            }
            i += 1;
        }
        assert(self@.members.take(i as int) == self@.members);
        out
    }

    /// The members of `list_uuid` as the viewer `current_user_uuid` sees them.
    pub fn users_of_list(&self, list_uuid: String, current_user_uuid: String) -> (r: Vec<User>)
        ensures
            r.deep_view() == self@.users_of_list(list_uuid@, current_user_uuid@),
    {
        let ghost f = self@.user_of_member_fn(list_uuid@, current_user_uuid@);
        let mut out: Vec<User> = Vec::new();
        let mut i: usize = 0;
        assert(self@.members.take(0).filter_map(f) =~= Seq::empty());
        while i < self.members.len()
            invariant
                i <= self.members.len(),
                f == self@.user_of_member_fn(list_uuid@, current_user_uuid@),
                out.deep_view() =~= self@.members.take(i as int).filter_map(f),
            decreases self.members.len() - i,
        {
            let m = &self.members[i];
            proof {
                self@.members.lemma_filter_map_take_succ(f, i as int);
            }
            if m.list_uuid == list_uuid {
                match self.user_at_uuid(&m.user_uuid) {
                    Some(j) => {
                        out.push(show_user(&self.users[j], &current_user_uuid));
                    },
                    None => {},
                }
            }
            i += 1;
        }
        assert(self@.members.take(i as int) == self@.members);
        out
    }

    /// The gifts of `user_uuid` on `list_uuid` as the viewer
    /// `current_user_uuid` sees them.
    pub fn gifts_of_list_user(&self, list_uuid: String, user_uuid: String, current_user_uuid: String) -> (r:
        Vec<Gift>)
        ensures
            r.deep_view() == self@.gifts_of_list_user(list_uuid@, user_uuid@, current_user_uuid@),
    {
        let ghost f = self@.gift_of_placement_fn(list_uuid@, user_uuid@, current_user_uuid@);
        let mut out: Vec<Gift> = Vec::new();
        let mut i: usize = 0;
        assert(self@.list_gifts.take(0).filter_map(f) =~= Seq::empty());
        while i < self.list_gifts.len()
            invariant
                i <= self.list_gifts.len(),
                f == self@.gift_of_placement_fn(list_uuid@, user_uuid@, current_user_uuid@),
                out.deep_view() =~= self@.list_gifts.take(i as int).filter_map(f),
            decreases self.list_gifts.len() - i,
        {
            let p = &self.list_gifts[i];
            proof {
                self@.list_gifts.lemma_filter_map_take_succ(f, i as int);
            }
            if p.list_uuid == list_uuid && p.user_uuid == user_uuid {
                match self.gift_at_uuid(&p.gift_uuid) {
                    Some(j) => {
                        out.push(self.show_gift(&self.gifts[j], &current_user_uuid));
                    },
                    None => {},
                }
            }
            i += 1;
        }
        assert(self@.list_gifts.take(i as int) == self@.list_gifts);
        out
    }

    /// Adds a user with their token. Refused where the identifier is taken.
    pub fn create_user(&mut self, user: User, auth_token: String) -> (r: Result<(), Failure>)
        ensures
            match r {
                Ok(()) => old(self)@.user_by_uuid(user@.uuid) is None && final(self)@ == old(
                    self,
                )@.with_user(user@, auth_token@),
                Err(e) => e@ == FailureView::StoreFailure && old(self)@.user_by_uuid(user@.uuid) is Some
                    && final(self)@ == old(self)@,
            },
            old(self)@.wf() ==> final(self)@.wf(),
    {
        if self.user_at_uuid(&user.uuid).is_some() {
            return Err(Failure::StoreFailure);
        }
        self.users.push(
            UserRow {
                user_uuid: user.uuid,
                auth_token,
                email: user.email,
                name: user.name,
                can_create: user.can_create,
            },
        );
        assert(self@.users =~= old(self)@.with_user(user@, auth_token@).users);
        proof {
            if old(self)@.wf() {
                lemma_with_user_wf(old(self)@, user@, auth_token@);
            }
        }
        Ok(())
    }

    /// Makes `user_uuid` a member of `list_uuid`.
    pub fn add_user_to_list(&mut self, user_uuid: String, list_uuid: String)
        ensures
            final(self)@ == old(self)@.with_member(list_uuid@, user_uuid@),
            old(self)@.wf() ==> final(self)@.wf(),
    {
        self.members.push(MemberRow { list_uuid, user_uuid });
        assert(self@.members =~= old(self)@.with_member(list_uuid@, user_uuid@).members);
        proof {
            if old(self)@.wf() {
                lemma_with_member_wf(old(self)@, list_uuid@, user_uuid@);
            }
        }
    }

    /// Adds a list and makes its owner a member of it. Refused where the
    /// identifier is taken.
    pub fn create_list(&mut self, list: List) -> (r: Result<(), Failure>)
        ensures
            match r {
                Ok(()) => old(self)@.list_by_uuid(list@.uuid) is None && final(self)@ == old(
                    self,
                )@.with_list(list@),
                Err(e) => e@ == FailureView::StoreFailure && old(self)@.list_by_uuid(list@.uuid) is Some
                    && final(self)@ == old(self)@,
            },
            old(self)@.wf() ==> final(self)@.wf(),
    {
        if self.list_at_uuid(&list.uuid).is_some() {
            return Err(Failure::StoreFailure);
        }
        self.members.push(MemberRow { list_uuid: list.uuid.clone(), user_uuid: list.owner.clone() });
        self.lists.push(ListRow { list_uuid: list.uuid, name: list.name, owner: list.owner });
        assert(self@.lists =~= old(self)@.with_list(list@).lists);
        assert(self@.members =~= old(self)@.with_list(list@).members);
        proof {
            if old(self)@.wf() {
                lemma_with_list_wf(old(self)@, list@);
            }
        }
        Ok(())
    }

    /// Adds a gift, unclaimed whatever `gift` says of its claim, and places
    /// it on `list_uuid`. Refused where the identifier is taken.
    pub fn create_gift(&mut self, gift: Gift, list_uuid: String) -> (r: Result<(), Failure>)
        ensures
            match r {
                Ok(()) => old(self)@.gift_by_uuid(gift@.uuid) is None && final(self)@ == old(
                    self,
                )@.with_gift(gift@, list_uuid@),
                Err(e) => e@ == FailureView::StoreFailure && old(self)@.gift_by_uuid(gift@.uuid) is Some
                    && final(self)@ == old(self)@,
            },
            old(self)@.wf() ==> final(self)@.wf(),
    {
        if self.gift_at_uuid(&gift.uuid).is_some() {
            return Err(Failure::StoreFailure);
        }
        self.list_gifts.push(
            ListGiftRow {
                list_uuid,
                user_uuid: gift.owner.clone(),
                gift_uuid: gift.uuid.clone(),
            },
        );
        self.gifts.push(
            GiftRow {
                gift_uuid: gift.uuid,
                user_uuid: gift.owner,
                url: gift.url,
                comment: gift.comment,
                claimed: false,
                claimed_by: None,
                alternate_to: gift.alternate_to_uuid,
            },
        );
        assert(self@.gifts =~= old(self)@.with_gift(gift@, list_uuid@).gifts);
        assert(self@.list_gifts =~= old(self)@.with_gift(gift@, list_uuid@).list_gifts);
        proof {
            if old(self)@.wf() {
                lemma_with_gift_wf(old(self)@, gift@, list_uuid@);
            }
        }
        Ok(())
    }

    /// Replaces name, email and privilege of the user `user.uuid`.
    pub fn modify_user(&mut self, user: User)
        ensures
            final(self)@ == old(self)@.with_user_modified(user@),
            old(self)@.wf() ==> final(self)@.wf(),
    {
        let ghost f = modify_user_fn(user@);
        let ghost before = self@.users;
        let mut i: usize = 0;
        while i < self.users.len()
            invariant
                i <= self.users.len(),
                self.users.len() == before.len(),
                f == modify_user_fn(user@),
                forall|j: int| 0 <= j < i ==> (#[trigger] self.users@[j])@ == f(before[j]),
                forall|j: int| i <= j < before.len() ==> (#[trigger] self.users@[j])@ == before[j],
                self.lists == old(self).lists,
                self.members == old(self).members,
                self.gifts == old(self).gifts,
                self.list_gifts == old(self).list_gifts,
            decreases self.users.len() - i,
        {
            if self.users[i].user_uuid == user.uuid {
                let row = UserRow {
                    user_uuid: self.users[i].user_uuid.clone(),
                    auth_token: self.users[i].auth_token.clone(),
                    email: user.email.clone(),
                    name: user.name.clone(),
                    can_create: user.can_create,
                };
                self.users.set(i, row);
            }
            i += 1;
        }
        assert(self@.users =~= before.map_values(f));
        proof {
            if old(self)@.wf() {
                lemma_with_user_modified_wf(old(self)@, user@);
            }
        }
    }

    /// Replaces the name of the list `list.uuid`.
    pub fn modify_list(&mut self, list: List)
        ensures
            final(self)@ == old(self)@.with_list_modified(list@),
            old(self)@.wf() ==> final(self)@.wf(),
    {
        let ghost f = modify_list_fn(list@);
        let ghost before = self@.lists;
        let mut i: usize = 0;
        while i < self.lists.len()
            invariant
                i <= self.lists.len(),
                self.lists.len() == before.len(),
                f == modify_list_fn(list@),
                forall|j: int| 0 <= j < i ==> (#[trigger] self.lists@[j])@ == f(before[j]),
                forall|j: int| i <= j < before.len() ==> (#[trigger] self.lists@[j])@ == before[j],
                self.users == old(self).users,
                self.members == old(self).members,
                self.gifts == old(self).gifts,
                self.list_gifts == old(self).list_gifts,
            decreases self.lists.len() - i,
        {
            if self.lists[i].list_uuid == list.uuid {
                let row = ListRow {
                    list_uuid: self.lists[i].list_uuid.clone(),
                    name: list.name.clone(),
                    owner: self.lists[i].owner.clone(),
                };
                self.lists.set(i, row);
            }
            i += 1;
        }
        assert(self@.lists =~= before.map_values(f));
        proof {
            if old(self)@.wf() {
                lemma_with_list_modified_wf(old(self)@, list@);
            }
        }
    }

    /// Replaces url, comment and claim state of the gift `gift.uuid`. Its
    /// owner and what it is an alternate to stay.
    pub fn modify_gift(&mut self, gift: Gift)
        ensures
            final(self)@ == old(self)@.with_gift_modified(gift@),
            old(self)@.wf() ==> final(self)@.wf(),
    {
        let ghost f = modify_gift_fn(gift@);
        let ghost before = self@.gifts;
        let mut i: usize = 0;
        while i < self.gifts.len()
            invariant
                i <= self.gifts.len(),
                self.gifts.len() == before.len(),
                f == modify_gift_fn(gift@),
                forall|j: int| 0 <= j < i ==> (#[trigger] self.gifts@[j])@ == f(before[j]),
                forall|j: int| i <= j < before.len() ==> (#[trigger] self.gifts@[j])@ == before[j],
                self.users == old(self).users,
                self.lists == old(self).lists,
                self.members == old(self).members,
                self.list_gifts == old(self).list_gifts,
            decreases self.gifts.len() - i,
        {
            if self.gifts[i].gift_uuid == gift.uuid {
                let row = GiftRow {
                    gift_uuid: self.gifts[i].gift_uuid.clone(),
                    user_uuid: self.gifts[i].user_uuid.clone(),
                    url: gift.url.clone(),
                    comment: gift.comment.clone(),
                    claimed: gift.claimed,
                    claimed_by: match &gift.claimed_by {
                        Some(u) => Some(u.uuid.clone()),
                        None => None,
                    },
                    alternate_to: clone_text(&self.gifts[i].alternate_to),
                };
                self.gifts.set(i, row);
            }
            i += 1;
        }
        assert(self@.gifts =~= before.map_values(f));
        proof {
            if old(self)@.wf() {
                lemma_with_gift_modified_wf(old(self)@, gift@);
            }
        }
    }

    /// Replaces url and comment of the gift `gift_uuid`; everything else of
    /// it stays, its claim state too.
    pub fn update_gift_details(&mut self, gift_uuid: String, url: String, comment: String)
        ensures
            final(self)@ == old(self)@.with_gift_details(gift_uuid@, url@, comment@),
            old(self)@.wf() ==> final(self)@.wf(),
    {
        let ghost f = gift_details_fn(gift_uuid@, url@, comment@);
        let ghost before = self@.gifts;
        let mut i: usize = 0;
        while i < self.gifts.len()
            invariant
                i <= self.gifts.len(),
                self.gifts.len() == before.len(),
                f == gift_details_fn(gift_uuid@, url@, comment@),
                forall|j: int| 0 <= j < i ==> (#[trigger] self.gifts@[j])@ == f(before[j]),
                forall|j: int| i <= j < before.len() ==> (#[trigger] self.gifts@[j])@ == before[j],
                self.users == old(self).users,
                self.lists == old(self).lists,
                self.members == old(self).members,
                self.list_gifts == old(self).list_gifts,
            decreases self.gifts.len() - i,
        {
            if self.gifts[i].gift_uuid == gift_uuid {
                let row = GiftRow {
                    gift_uuid: self.gifts[i].gift_uuid.clone(),
                    user_uuid: self.gifts[i].user_uuid.clone(),
                    url: url.clone(),
                    comment: comment.clone(),
                    claimed: self.gifts[i].claimed,
                    claimed_by: clone_text(&self.gifts[i].claimed_by),
                    alternate_to: clone_text(&self.gifts[i].alternate_to),
                };
                self.gifts.set(i, row);
            }
            i += 1;
        }
        assert(self@.gifts =~= before.map_values(f));
        proof {
            if old(self)@.wf() {
                lemma_with_gift_details_wf(old(self)@, gift_uuid@, url@, comment@);
            }
        }
    }

    /// Removes the gift `gift_uuid` and the row that places it on a list.
    pub fn delete_gift(&mut self, gift_uuid: String)
        ensures
            final(self)@ == old(self)@.without_gift(gift_uuid@),
            old(self)@.wf() ==> final(self)@.wf(),
    {
        let keeps_placement = |p: &ListGiftRow| -> (b: bool)
            ensures
                b == Tables::keeps_placement_fn(gift_uuid@)(p.deep_view()),
        {
            p.gift_uuid != gift_uuid
        };
        retain_rows(&mut self.list_gifts, keeps_placement, Ghost(Tables::keeps_placement_fn(gift_uuid@)));
        let keeps_gift = |g: &GiftRow| -> (b: bool)
            ensures
                b == Tables::keeps_gift_fn(gift_uuid@)(g.deep_view()),
        {
            g.gift_uuid != gift_uuid
        };
        retain_rows(&mut self.gifts, keeps_gift, Ghost(Tables::keeps_gift_fn(gift_uuid@)));
        proof {
            if old(self)@.wf() {
                lemma_without_gift_wf(old(self)@, gift_uuid@);
            }
        }
    }

    /// Removes the list `list_uuid`, its membership rows, the gifts placed on
    /// it and the rows that place them.
    pub fn delete_list(&mut self, list_uuid: String)
        ensures
            final(self)@ == old(self)@.without_list(list_uuid@),
            old(self)@.wf() ==> final(self)@.wf(),
    {
        let placements = Ghost(self@.list_gifts);
        let keeps_list = |l: &ListRow| -> (b: bool)
            ensures
                b == Tables::list_is_not_fn(list_uuid@)(l.deep_view()),
        {
            l.list_uuid != list_uuid
        };
        retain_rows(&mut self.lists, keeps_list, Ghost(Tables::list_is_not_fn(list_uuid@)));
        let keeps_member = |m: &MemberRow| -> (b: bool)
            ensures
                b == Tables::member_off_list_fn(list_uuid@)(m.deep_view()),
        {
            m.list_uuid != list_uuid
        };
        retain_rows(&mut self.members, keeps_member, Ghost(Tables::member_off_list_fn(list_uuid@)));
        let placed = &self.list_gifts;
        let keeps_gift = |g: &GiftRow| -> (b: bool)
            ensures
                b == Tables::gift_off_list_fn(placements@, list_uuid@)(g.deep_view()),
        {
            !placed_on_list(placed, &g.gift_uuid, &list_uuid)
        };
        retain_rows(&mut self.gifts, keeps_gift, Ghost(Tables::gift_off_list_fn(placements@, list_uuid@)));
        let keeps_placement = |p: &ListGiftRow| -> (b: bool)
            ensures
                b == Tables::placement_off_list_fn(list_uuid@)(p.deep_view()),
        {
            p.list_uuid != list_uuid
        };
        retain_rows(
            &mut self.list_gifts,
            keeps_placement,
            Ghost(Tables::placement_off_list_fn(list_uuid@)),
        );
        proof {
            if old(self)@.wf() {
                lemma_without_list_wf(old(self)@, list_uuid@);
            }
        }
    }

    /// Removes the user `user_uuid` with their memberships and gifts, and the
    /// lists they own with everything on those lists.
    pub fn delete_user(&mut self, user_uuid: String)
        ensures
            final(self)@ == old(self)@.without_user(user_uuid@),
            old(self)@.wf() ==> final(self)@.wf(),
    {
        let placements = Ghost(self@.list_gifts);
        let owned = Ghost(self@.lists);
        let keeps_user = |u: &UserRow| -> (b: bool)
            ensures
                b == Tables::user_is_not_fn(user_uuid@)(u.deep_view()),
        {
            u.user_uuid != user_uuid
        };
        retain_rows(&mut self.users, keeps_user, Ghost(Tables::user_is_not_fn(user_uuid@)));
        let lists = &self.lists;
        let keeps_member = |m: &MemberRow| -> (b: bool)
            ensures
                b == Tables::member_survives_fn(owned@, user_uuid@)(m.deep_view()),
        {
            m.user_uuid != user_uuid && !is_owner_of(lists, &user_uuid, &m.list_uuid)
        };
        retain_rows(&mut self.members, keeps_member, Ghost(Tables::member_survives_fn(owned@, user_uuid@)));
        let placed = &self.list_gifts;
        let keeps_gift = |g: &GiftRow| -> (b: bool)
            ensures
                b == Tables::gift_survives_fn(placements@, owned@, user_uuid@)(g.deep_view()),
        {
            g.user_uuid != user_uuid && !placed_on_list_of(placed, lists, &g.gift_uuid, &user_uuid)
        };
        retain_rows(
            &mut self.gifts,
            keeps_gift,
            Ghost(Tables::gift_survives_fn(placements@, owned@, user_uuid@)),
        );
        let keeps_placement = |p: &ListGiftRow| -> (b: bool)
            ensures
                b == Tables::placement_survives_fn(owned@, user_uuid@)(p.deep_view()),
        {
            p.user_uuid != user_uuid && !is_owner_of(lists, &user_uuid, &p.list_uuid)
        };
        retain_rows(
            &mut self.list_gifts,
            keeps_placement,
            Ghost(Tables::placement_survives_fn(owned@, user_uuid@)),
        );
        let keeps_list = |l: &ListRow| -> (b: bool)
            ensures
                b == Tables::list_not_owned_fn(user_uuid@)(l.deep_view()),
        {
            l.owner != user_uuid
        };
        retain_rows(&mut self.lists, keeps_list, Ghost(Tables::list_not_owned_fn(user_uuid@)));
        proof {
            if old(self)@.wf() {
                lemma_without_user_wf(old(self)@, user_uuid@);
            }
        }
    }
}

} // verus!
