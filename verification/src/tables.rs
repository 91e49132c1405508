//! The five tables and what each query and each statement means on them.
//!
//! `Tables` is the mathematical model: five sequences of rows in insertion
//! order. Every operation of the store is a function on it.

use crate::data::{GiftView, ListView, UserView};
use crate::seqs::{find_first, keys_distinct};
use vstd::prelude::*;

verus! {

/// A row of the user table. `auth_token` is the bearer token that a login
/// link carries.
pub struct UserRow {
    pub user_uuid: String,
    pub auth_token: String,
    pub email: String,
    pub name: String,
    pub can_create: bool,
}

pub struct UserRowView {
    pub user_uuid: Seq<char>,
    pub auth_token: Seq<char>,
    pub email: Seq<char>,
    pub name: Seq<char>,
    pub can_create: bool,
}

impl DeepView for UserRow {
    type V = UserRowView;

    open spec fn deep_view(&self) -> UserRowView {
        UserRowView {
            user_uuid: self.user_uuid@,
            auth_token: self.auth_token@,
            email: self.email@,
            name: self.name@,
            can_create: self.can_create,
        }
    }
}

impl View for UserRow {
    type V = UserRowView;

    open spec fn view(&self) -> UserRowView {
        self.deep_view()
    }
}

impl Clone for UserRow {
    fn clone(&self) -> (r: Self)
        ensures
            r == *self,
    {
        UserRow {
            user_uuid: self.user_uuid.clone(),
            auth_token: self.auth_token.clone(),
            email: self.email.clone(),
            name: self.name.clone(),
            can_create: self.can_create,
        }
    }
}

/// A row of the list table.
#[derive(Debug)]
pub struct ListRow {
    pub list_uuid: String,
    pub name: String,
    pub owner: String,
}

pub struct ListRowView {
    pub list_uuid: Seq<char>,
    pub name: Seq<char>,
    pub owner: Seq<char>,
}

impl DeepView for ListRow {
    type V = ListRowView;

    open spec fn deep_view(&self) -> ListRowView {
        ListRowView {
            list_uuid: self.list_uuid@,
            name: self.name@,
            owner: self.owner@,
        }
    }
}

impl View for ListRow {
    type V = ListRowView;

    open spec fn view(&self) -> ListRowView {
        self.deep_view()
    }
}

impl Clone for ListRow {
    fn clone(&self) -> (r: Self)
        ensures
            r == *self,
    {
        ListRow {
            list_uuid: self.list_uuid.clone(),
            name: self.name.clone(),
            owner: self.owner.clone(),
        }
    }
}

/// A row of the membership table: the user may see the list and add gifts
/// to it.
#[derive(Debug)]
pub struct MemberRow {
    pub list_uuid: String,
    pub user_uuid: String,
}

pub struct MemberRowView {
    pub list_uuid: Seq<char>,
    pub user_uuid: Seq<char>,
}

impl DeepView for MemberRow {
    type V = MemberRowView;

    open spec fn deep_view(&self) -> MemberRowView {
        MemberRowView {
            list_uuid: self.list_uuid@,
            user_uuid: self.user_uuid@,
        }
    }
}

impl View for MemberRow {
    type V = MemberRowView;

    open spec fn view(&self) -> MemberRowView {
        self.deep_view()
    }
}

impl Clone for MemberRow {
    fn clone(&self) -> (r: Self)
        ensures
            r == *self,
    {
        MemberRow {
            list_uuid: self.list_uuid.clone(),
            user_uuid: self.user_uuid.clone(),
        }
    }
}

/// A row of the gift table. `user_uuid` is the recipient, who owns the gift.
#[derive(Debug)]
pub struct GiftRow {
    pub gift_uuid: String,
    pub user_uuid: String,
    pub url: String,
    pub comment: String,
    pub claimed: bool,
    pub claimed_by: Option<String>,
    pub alternate_to: Option<String>,
}

pub struct GiftRowView {
    pub gift_uuid: Seq<char>,
    pub user_uuid: Seq<char>,
    pub url: Seq<char>,
    pub comment: Seq<char>,
    pub claimed: bool,
    pub claimed_by: Option<Seq<char>>,
    pub alternate_to: Option<Seq<char>>,
}

impl DeepView for GiftRow {
    type V = GiftRowView;

    open spec fn deep_view(&self) -> GiftRowView {
        GiftRowView {
            gift_uuid: self.gift_uuid@,
            user_uuid: self.user_uuid@,
            url: self.url@,
            comment: self.comment@,
            claimed: self.claimed,
            claimed_by: self.claimed_by.deep_view(),
            alternate_to: self.alternate_to.deep_view(),
        }
    }
}

impl View for GiftRow {
    type V = GiftRowView;

    open spec fn view(&self) -> GiftRowView {
        self.deep_view()
    }
}

impl Clone for GiftRow {
    fn clone(&self) -> (r: Self)
        ensures
            r == *self,
    {
        GiftRow {
            gift_uuid: self.gift_uuid.clone(),
            user_uuid: self.user_uuid.clone(),
            url: self.url.clone(),
            comment: self.comment.clone(),
            claimed: self.claimed,
            claimed_by: match &self.claimed_by {
                Some(s) => Some(s.clone()),
                None => None,
            },
            alternate_to: match &self.alternate_to {
                Some(s) => Some(s.clone()),
                None => None,
            },
        }
    }
}

/// A row of the table that places a gift on a list, with the gift's owner
/// beside it.
#[derive(Debug)]
pub struct ListGiftRow {
    pub list_uuid: String,
    pub user_uuid: String,
    pub gift_uuid: String,
}

pub struct ListGiftRowView {
    pub list_uuid: Seq<char>,
    pub user_uuid: Seq<char>,
    pub gift_uuid: Seq<char>,
}

impl DeepView for ListGiftRow {
    type V = ListGiftRowView;

    open spec fn deep_view(&self) -> ListGiftRowView {
        ListGiftRowView {
            list_uuid: self.list_uuid@,
            user_uuid: self.user_uuid@,
            gift_uuid: self.gift_uuid@,
        }
    }
}

impl View for ListGiftRow {
    type V = ListGiftRowView;

    open spec fn view(&self) -> ListGiftRowView {
        self.deep_view()
    }
}

impl Clone for ListGiftRow {
    fn clone(&self) -> (r: Self)
        ensures
            r == *self,
    {
        ListGiftRow {
            list_uuid: self.list_uuid.clone(),
            user_uuid: self.user_uuid.clone(),
            gift_uuid: self.gift_uuid.clone(),
        }
    }
}

/// The state of the store.
pub struct Tables {
    pub users: Seq<UserRowView>,
    pub lists: Seq<ListRowView>,
    pub members: Seq<MemberRowView>,
    pub gifts: Seq<GiftRowView>,
    pub list_gifts: Seq<ListGiftRowView>,
}

/// The users that log in with `token`.
pub open spec fn user_has_token(token: Seq<char>) -> spec_fn(UserRowView) -> bool {
    |u: UserRowView| u.auth_token == token
}

/// The users with the email `email`.
pub open spec fn user_has_email(email: Seq<char>) -> spec_fn(UserRowView) -> bool {
    |u: UserRowView| u.email == email
}

/// The users with the identifier `uuid`.
pub open spec fn user_has_uuid(uuid: Seq<char>) -> spec_fn(UserRowView) -> bool {
    |u: UserRowView| u.user_uuid == uuid
}

/// The lists with the identifier `uuid`.
pub open spec fn list_has_uuid(uuid: Seq<char>) -> spec_fn(ListRowView) -> bool {
    |l: ListRowView| l.list_uuid == uuid
}

/// The gifts with the identifier `uuid`.
pub open spec fn gift_has_uuid(uuid: Seq<char>) -> spec_fn(GiftRowView) -> bool {
    |g: GiftRowView| g.gift_uuid == uuid
}

/// The user row as a page shows it to the viewer `current`.
pub open spec fn user_record(u: UserRowView, current: Seq<char>) -> UserView {
    UserView {
        uuid: u.user_uuid,
        email: u.email,
        name: u.name,
        can_create: u.can_create,
        is_me: current == u.user_uuid,
    }
}

/// The user row as a gift names its claimer: identifier and name only.
pub open spec fn claimer_record(u: UserRowView, current: Seq<char>) -> UserView {
    UserView {
        uuid: u.user_uuid,
        email: Seq::empty(),
        name: u.name,
        can_create: false,
        is_me: u.user_uuid == current,
    }
}

/// The list row as a page shows it to the viewer `current`.
pub open spec fn list_record(l: ListRowView, current: Seq<char>) -> ListView {
    ListView { uuid: l.list_uuid, name: l.name, owner: l.owner, im_owner: current == l.owner }
}

impl Tables {
    /// No rows at all.
    pub open spec fn empty() -> Tables {
        Tables {
            users: Seq::empty(),
            lists: Seq::empty(),
            members: Seq::empty(),
            gifts: Seq::empty(),
            list_gifts: Seq::empty(),
        }
    }

    /// The first user that logs in with `token`.
    pub open spec fn user_by_token(self, token: Seq<char>) -> Option<UserRowView> {
        find_first(self.users, user_has_token(token))
    }

    /// The first user with the email `email`.
    pub open spec fn user_by_email(self, email: Seq<char>) -> Option<UserRowView> {
        find_first(self.users, user_has_email(email))
    }

    /// The user with the identifier `uuid`: the first, should there be several.
    pub open spec fn user_by_uuid(self, uuid: Seq<char>) -> Option<UserRowView> {
        find_first(self.users, user_has_uuid(uuid))
    }

    /// The list with the identifier `uuid`: the first, should there be several.
    pub open spec fn list_by_uuid(self, uuid: Seq<char>) -> Option<ListRowView> {
        find_first(self.lists, list_has_uuid(uuid))
    }

    /// The gift with the identifier `uuid`: the first, should there be several.
    pub open spec fn gift_by_uuid(self, uuid: Seq<char>) -> Option<GiftRowView> {
        find_first(self.gifts, gift_has_uuid(uuid))
    }

    /// The claimer of `g` as the user table knows them: nobody where the gift
    /// names no claimer, or names one that has no user row.
    pub open spec fn claimer_of(self, g: GiftRowView, current: Seq<char>) -> Option<UserView> {
        match g.claimed_by {
            Some(c) => match self.user_by_uuid(c) {
                Some(u) => Some(claimer_record(u, current)),
                None => None,
            },
            None => None,
        }
    }

    /// The gift row as a page shows it to the viewer `current`.
    pub open spec fn gift_record(self, g: GiftRowView, current: Seq<char>) -> GiftView {
        GiftView {
            uuid: g.gift_uuid,
            owner: g.user_uuid,
            url: g.url,
            comment: g.comment,
            claimed: g.claimed,
            claimed_by: self.claimer_of(g, current),
            alternate_to_uuid: g.alternate_to,
        }
    }

    /// The list that a membership row of `user` leads to.
    pub open spec fn list_of_member(self, m: MemberRowView, user: Seq<char>) -> Option<ListView> {
        if m.user_uuid == user {
            match self.list_by_uuid(m.list_uuid) {
                Some(l) => Some(list_record(l, user)),
                None => None,
            }
        } else {
            None
        }
    }

    /// `list_of_member` for the user `user`, as a function of the row.
    pub open spec fn list_of_member_fn(self, user: Seq<char>) -> spec_fn(MemberRowView) -> Option<
        ListView,
    > {
        |m: MemberRowView| self.list_of_member(m, user)
    }

    /// The lists that `user` is a member of, in the order of the membership rows.
    pub open spec fn lists_of_user(self, user: Seq<char>) -> Seq<ListView> {
        self.members.filter_map(self.list_of_member_fn(user))
    }

    /// The user that a membership row of `list` leads to.
    pub open spec fn user_of_member(self, m: MemberRowView, list: Seq<char>, current: Seq<char>) -> Option<
        UserView,
    > {
        if m.list_uuid == list {
            match self.user_by_uuid(m.user_uuid) {
                Some(u) => Some(user_record(u, current)),
                None => None,
            }
        } else {
            None
        }
    }

    /// `user_of_member` for the list `list`, as a function of the row.
    pub open spec fn user_of_member_fn(self, list: Seq<char>, current: Seq<char>) -> spec_fn(
        MemberRowView,
    ) -> Option<UserView> {
        |m: MemberRowView| self.user_of_member(m, list, current)
    }

    /// The members of `list`, in the order of the membership rows.
    pub open spec fn users_of_list(self, list: Seq<char>, current: Seq<char>) -> Seq<UserView> {
        self.members.filter_map(self.user_of_member_fn(list, current))
    }

    /// The gift that a row placing a gift of `owner` on `list` leads to.
    pub open spec fn gift_of_placement(
        self,
        p: ListGiftRowView,
        list: Seq<char>,
        owner: Seq<char>,
        current: Seq<char>,
    ) -> Option<GiftView> {
        if p.list_uuid == list && p.user_uuid == owner {
            match self.gift_by_uuid(p.gift_uuid) {
                Some(g) => Some(self.gift_record(g, current)),
                None => None,
            }
        } else {
            None
        }
    }

    /// `gift_of_placement` for `list` and `owner`, as a function of the row.
    pub open spec fn gift_of_placement_fn(self, list: Seq<char>, owner: Seq<char>, current: Seq<char>) -> spec_fn(
        ListGiftRowView,
    ) -> Option<GiftView> {
        |p: ListGiftRowView| self.gift_of_placement(p, list, owner, current)
    }

    /// The gifts of `owner` on `list`, in the order in which they were placed.
    pub open spec fn gifts_of_list_user(self, list: Seq<char>, owner: Seq<char>, current: Seq<char>) -> Seq<
        GiftView,
    > {
        self.list_gifts.filter_map(self.gift_of_placement_fn(list, owner, current))
    }
}

/// The row of the user `user` with the token `token`.
pub open spec fn user_row(user: UserView, token: Seq<char>) -> UserRowView {
    UserRowView {
        user_uuid: user.uuid,
        auth_token: token,
        email: user.email,
        name: user.name,
        can_create: user.can_create,
    }
}

/// The row of the list `list`.
pub open spec fn list_row(list: ListView) -> ListRowView {
    ListRowView { list_uuid: list.uuid, name: list.name, owner: list.owner }
}

/// The row of a gift that has just been created: nobody has claimed it.
pub open spec fn new_gift_row(gift: GiftView) -> GiftRowView {
    GiftRowView {
        gift_uuid: gift.uuid,
        user_uuid: gift.owner,
        url: gift.url,
        comment: gift.comment,
        claimed: false,
        claimed_by: None,
        alternate_to: gift.alternate_to_uuid,
    }
}

/// The identifier under which a gift record names its claimer.
pub open spec fn claimer_uuid(gift: GiftView) -> Option<Seq<char>> {
    match gift.claimed_by {
        Some(u) => Some(u.uuid),
        None => None,
    }
}

/// What `modify_user` does to a row: name, email and privilege of the user
/// `user.uuid` are replaced.
pub open spec fn modify_user_fn(user: UserView) -> spec_fn(UserRowView) -> UserRowView {
    |u: UserRowView|
        if u.user_uuid == user.uuid {
            UserRowView { name: user.name, email: user.email, can_create: user.can_create, ..u }
        } else {
            u
        }
}

/// What `modify_list` does to a row: the name of the list `list.uuid` is
/// replaced.
pub open spec fn modify_list_fn(list: ListView) -> spec_fn(ListRowView) -> ListRowView {
    |l: ListRowView|
        if l.list_uuid == list.uuid {
            ListRowView { name: list.name, ..l }
        } else {
            l
        }
}

/// What `modify_gift` does to a row: url, comment and claim of the gift
/// `gift.uuid` are replaced.
pub open spec fn modify_gift_fn(gift: GiftView) -> spec_fn(GiftRowView) -> GiftRowView {
    |g: GiftRowView|
        if g.gift_uuid == gift.uuid {
            GiftRowView {
                url: gift.url,
                comment: gift.comment,
                claimed: gift.claimed,
                claimed_by: claimer_uuid(gift),
                ..g
            }
        } else {
            g
        }
}

/// What `update_gift_details` does to a row: url and comment of the gift
/// `uuid` are replaced.
pub open spec fn gift_details_fn(uuid: Seq<char>, url: Seq<char>, comment: Seq<char>) -> spec_fn(
    GiftRowView,
) -> GiftRowView {
    |g: GiftRowView|
        if g.gift_uuid == uuid {
            GiftRowView { url: url, comment: comment, ..g }
        } else {
            g
        }
}

/// The rows that place `gift` on `list`.
pub open spec fn placement_of(gift: Seq<char>, list: Seq<char>) -> spec_fn(ListGiftRowView) -> bool {
    |p: ListGiftRowView| p.gift_uuid == gift && p.list_uuid == list
}

/// The lists with the identifier `list` that `owner` owns.
pub open spec fn list_owned_by(list: Seq<char>, owner: Seq<char>) -> spec_fn(ListRowView) -> bool {
    |l: ListRowView| l.list_uuid == list && l.owner == owner
}

/// Some row of `placements` places `gift` on `list`.
pub open spec fn gift_on_list(placements: Seq<ListGiftRowView>, gift: Seq<char>, list: Seq<char>) -> bool {
    find_first(placements, placement_of(gift, list)) is Some
}

/// `list` is among `lists` and `owner` owns it.
pub open spec fn owns_list(lists: Seq<ListRowView>, owner: Seq<char>, list: Seq<char>) -> bool {
    find_first(lists, list_owned_by(list, owner)) is Some
}

/// The rows that place `gift` on a list that `owner` owns.
pub open spec fn placement_on_list_of(lists: Seq<ListRowView>, gift: Seq<char>, owner: Seq<char>) -> spec_fn(
    ListGiftRowView,
) -> bool {
    |p: ListGiftRowView| p.gift_uuid == gift && owns_list(lists, owner, p.list_uuid)
}

/// Some row of `placements` places `gift` on a list that `owner` owns.
pub open spec fn gift_on_list_of(
    placements: Seq<ListGiftRowView>,
    lists: Seq<ListRowView>,
    gift: Seq<char>,
    owner: Seq<char>,
) -> bool {
    find_first(placements, placement_on_list_of(lists, gift, owner)) is Some
}

impl Tables {
    /// The user added, with their token.
    pub open spec fn with_user(self, user: UserView, token: Seq<char>) -> Tables {
        Tables { users: self.users.push(user_row(user, token)), ..self }
    }

    /// `user` made a member of `list`.
    pub open spec fn with_member(self, list: Seq<char>, user: Seq<char>) -> Tables {
        Tables {
            members: self.members.push(MemberRowView { list_uuid: list, user_uuid: user }),
            ..self
        }
    }

    /// The list added, and its owner as its first member.
    pub open spec fn with_list(self, list: ListView) -> Tables {
        Tables {
            lists: self.lists.push(list_row(list)),
            members: self.members.push(
                MemberRowView { list_uuid: list.uuid, user_uuid: list.owner },
            ),
            ..self
        }
    }

    /// The gift added, unclaimed, and placed on `list`.
    pub open spec fn with_gift(self, gift: GiftView, list: Seq<char>) -> Tables {
        Tables {
            gifts: self.gifts.push(new_gift_row(gift)),
            list_gifts: self.list_gifts.push(
                ListGiftRowView { list_uuid: list, user_uuid: gift.owner, gift_uuid: gift.uuid },
            ),
            ..self
        }
    }

    /// Name, email and privilege of the user replaced.
    pub open spec fn with_user_modified(self, user: UserView) -> Tables {
        Tables { users: self.users.map_values(modify_user_fn(user)), ..self }
    }

    /// The list's name replaced.
    pub open spec fn with_list_modified(self, list: ListView) -> Tables {
        Tables { lists: self.lists.map_values(modify_list_fn(list)), ..self }
    }

    /// Url, comment and claim state of the gift replaced.
    pub open spec fn with_gift_modified(self, gift: GiftView) -> Tables {
        Tables { gifts: self.gifts.map_values(modify_gift_fn(gift)), ..self }
    }

    /// Url and comment of the gift replaced; its claim state stays.
    pub open spec fn with_gift_details(self, uuid: Seq<char>, url: Seq<char>, comment: Seq<char>) -> Tables {
        Tables { gifts: self.gifts.map_values(gift_details_fn(uuid, url, comment)), ..self }
    }

    /// The gifts that stay when the gift `uuid` is removed.
    pub open spec fn keeps_gift_fn(uuid: Seq<char>) -> spec_fn(GiftRowView) -> bool {
        |g: GiftRowView| g.gift_uuid != uuid
    }

    /// The rows that stay when the gift `uuid` is removed.
    pub open spec fn keeps_placement_fn(uuid: Seq<char>) -> spec_fn(ListGiftRowView) -> bool {
        |p: ListGiftRowView| p.gift_uuid != uuid
    }

    /// The gift removed, and the row that placed it on a list.
    pub open spec fn without_gift(self, uuid: Seq<char>) -> Tables {
        Tables {
            gifts: self.gifts.filter(Self::keeps_gift_fn(uuid)),
            list_gifts: self.list_gifts.filter(Self::keeps_placement_fn(uuid)),
            ..self
        }
    }

    /// The lists that stay when the list `list` is removed.
    pub open spec fn list_is_not_fn(list: Seq<char>) -> spec_fn(ListRowView) -> bool {
        |l: ListRowView| l.list_uuid != list
    }

    /// The membership rows that stay when the list `list` is removed.
    pub open spec fn member_off_list_fn(list: Seq<char>) -> spec_fn(MemberRowView) -> bool {
        |m: MemberRowView| m.list_uuid != list
    }

    /// The gifts that stay when the list `list` is removed: those that no row
    /// of `placements` places on it.
    pub open spec fn gift_off_list_fn(placements: Seq<ListGiftRowView>, list: Seq<char>) -> spec_fn(
        GiftRowView,
    ) -> bool {
        |g: GiftRowView| !gift_on_list(placements, g.gift_uuid, list)
    }

    /// The rows placing gifts that stay when the list `list` is removed.
    pub open spec fn placement_off_list_fn(list: Seq<char>) -> spec_fn(ListGiftRowView) -> bool {
        |p: ListGiftRowView| p.list_uuid != list
    }

    /// The list removed, with its membership rows, the gifts placed on it and
    /// the rows that placed them. Gifts on other lists stay.
    pub open spec fn without_list(self, list: Seq<char>) -> Tables {
        Tables {
            users: self.users,
            lists: self.lists.filter(Self::list_is_not_fn(list)),
            members: self.members.filter(Self::member_off_list_fn(list)),
            gifts: self.gifts.filter(Self::gift_off_list_fn(self.list_gifts, list)),
            list_gifts: self.list_gifts.filter(Self::placement_off_list_fn(list)),
        }
    }

    /// The users that stay when the user `user` is removed.
    pub open spec fn user_is_not_fn(user: Seq<char>) -> spec_fn(UserRowView) -> bool {
        |u: UserRowView| u.user_uuid != user
    }

    /// The lists that stay when the user `user` is removed.
    pub open spec fn list_not_owned_fn(user: Seq<char>) -> spec_fn(ListRowView) -> bool {
        |l: ListRowView| l.owner != user
    }

    /// The membership rows that stay when the user `user` is removed: those
    /// of other users on lists that `user` does not own.
    pub open spec fn member_survives_fn(lists: Seq<ListRowView>, user: Seq<char>) -> spec_fn(
        MemberRowView,
    ) -> bool {
        |m: MemberRowView| m.user_uuid != user && !owns_list(lists, user, m.list_uuid)
    }

    /// The gifts that stay when the user `user` is removed: those of other
    /// users that are on no list that `user` owns.
    pub open spec fn gift_survives_fn(
        placements: Seq<ListGiftRowView>,
        lists: Seq<ListRowView>,
        user: Seq<char>,
    ) -> spec_fn(GiftRowView) -> bool {
        |g: GiftRowView| g.user_uuid != user && !gift_on_list_of(placements, lists, g.gift_uuid, user)
    }

    /// The rows placing gifts that stay when the user `user` is removed.
    pub open spec fn placement_survives_fn(lists: Seq<ListRowView>, user: Seq<char>) -> spec_fn(
        ListGiftRowView,
    ) -> bool {
        |p: ListGiftRowView| p.user_uuid != user && !owns_list(lists, user, p.list_uuid)
    }

    /// The user removed, with their memberships, their gifts, and the lists
    /// they own together with everything on those lists.
    pub open spec fn without_user(self, user: Seq<char>) -> Tables {
        Tables {
            users: self.users.filter(Self::user_is_not_fn(user)),
            lists: self.lists.filter(Self::list_not_owned_fn(user)),
            members: self.members.filter(Self::member_survives_fn(self.lists, user)),
            gifts: self.gifts.filter(Self::gift_survives_fn(self.list_gifts, self.lists, user)),
            list_gifts: self.list_gifts.filter(Self::placement_survives_fn(self.lists, user)),
        }
    }
}

/// The rows that make `user` a member of `list`.
pub open spec fn member_is(list: Seq<char>, user: Seq<char>) -> spec_fn(MemberRowView) -> bool {
    |m: MemberRowView| m.list_uuid == list && m.user_uuid == user
}

/// The email of a user row.
pub open spec fn user_email() -> spec_fn(UserRowView) -> Seq<char> {
    |u: UserRowView| u.email
}

/// The key of a user row.
pub open spec fn user_key() -> spec_fn(UserRowView) -> Seq<char> {
    |u: UserRowView| u.user_uuid
}

/// The key of a list row.
pub open spec fn list_key() -> spec_fn(ListRowView) -> Seq<char> {
    |l: ListRowView| l.list_uuid
}

/// The key of a gift row.
pub open spec fn gift_key() -> spec_fn(GiftRowView) -> Seq<char> {
    |g: GiftRowView| g.gift_uuid
}

/// The gift that a row places. No gift is placed twice.
pub open spec fn placement_key() -> spec_fn(ListGiftRowView) -> Seq<char> {
    |p: ListGiftRowView| p.gift_uuid
}

impl Tables {
    /// No two users share an identifier.
    pub open spec fn user_ids_distinct(self) -> bool {
        keys_distinct(self.users, user_key())
    }

    /// No two lists share an identifier.
    pub open spec fn list_ids_distinct(self) -> bool {
        keys_distinct(self.lists, list_key())
    }

    /// No two gifts share an identifier.
    pub open spec fn gift_ids_distinct(self) -> bool {
        keys_distinct(self.gifts, gift_key())
    }

    /// No gift is placed twice.
    pub open spec fn placements_distinct(self) -> bool {
        keys_distinct(self.list_gifts, placement_key())
    }

    /// The row `p` names a gift that exists, and names its owner.
    pub open spec fn resolves(self, p: ListGiftRowView) -> bool {
        self.gift_by_uuid(p.gift_uuid) matches Some(g) && g.user_uuid == p.user_uuid
    }

    /// Every row that places a gift names a gift that exists, and names its
    /// owner.
    pub open spec fn placements_resolve(self) -> bool {
        forall|i: int| 0 <= i < self.list_gifts.len() ==> self.resolves(#[trigger] self.list_gifts[i])
    }

    /// Some membership row makes `user` a member of `list`.
    pub open spec fn has_member(self, list: Seq<char>, user: Seq<char>) -> bool {
        find_first(self.members, member_is(list, user)) is Some
    }

    /// The owner of every list is a member of it.
    pub open spec fn owners_are_members(self) -> bool {
        forall|i: int|
            0 <= i < self.lists.len() ==> self.has_member(
                (#[trigger] self.lists[i]).list_uuid,
                self.lists[i].owner,
            )
    }

    /// Every gift is placed on a list for a member of that list.
    pub open spec fn placed_for_members(self) -> bool {
        forall|i: int|
            0 <= i < self.list_gifts.len() ==> self.has_member(
                (#[trigger] self.list_gifts[i]).list_uuid,
                self.list_gifts[i].user_uuid,
            )
    }

    /// What the store keeps true of its tables: identifiers are keys, the
    /// owner of a list is a member of it, a gift is on at most one list, and
    /// the rows that place gifts agree with the gifts.
    pub open spec fn wf(self) -> bool {
        &&& self.user_ids_distinct()
        &&& self.list_ids_distinct()
        &&& self.gift_ids_distinct()
        &&& self.placements_distinct()
        &&& self.placements_resolve()
        &&& self.owners_are_members()
    }

    /// No two users share an email.
    pub open spec fn emails_distinct(self) -> bool {
        keys_distinct(self.users, user_email())
    }

    /// No gift names its owner as its claimer.
    pub open spec fn no_self_claims(self) -> bool {
        forall|i: int|
            0 <= i < self.gifts.len() ==> (#[trigger] self.gifts[i]).claimed_by != Some(
                self.gifts[i].user_uuid,
            )
    }

    /// Every gift is claimed exactly where it names a claimer.
    pub open spec fn claims_consistent(self) -> bool {
        forall|i: int|
            0 <= i < self.gifts.len() ==> ((#[trigger] self.gifts[i]).claimed
                <==> self.gifts[i].claimed_by is Some)
    }
}

} // verus!
