//! Creating a list and adding members to one: who is added, who is created
//! for it, and who is to be invited.

use crate::data::{
    CreateList, CreateListView, List, ListUser, ListUserView, ListView, ModifyList, ModifyListView,
    User, UserView,
};
use crate::db::DbConn;
use crate::failure::{text_outcome, Failure, FailureView};
use crate::ident::{is_uuid_text, new_uuid};
use crate::seqs::{lemma_find_first_sound, lemma_push_distinct};
use crate::tables::{list_record, user_email, user_has_email, user_record, user_row, Tables};
use crate::token::{is_token_text, new_auth_token};
use crate::webserver::{current_user_of, text, WebServer};
use vstd::prelude::*;

verus! {

/// What it takes to invite a member: the list, the member, and the token
/// that logs them in.
pub struct Invite {
    pub list_name: String,
    pub user: User,
    pub auth_token: String,
}

pub struct InviteView {
    pub list_name: Seq<char>,
    pub user: UserView,
    pub auth_token: Seq<char>,
}

impl DeepView for Invite {
    type V = InviteView;

    open spec fn deep_view(&self) -> InviteView {
        InviteView { list_name: self.list_name@, user: self.user@, auth_token: self.auth_token@ }
    }
}

impl View for Invite {
    type V = InviteView;

    open spec fn view(&self) -> InviteView {
        self.deep_view()
    }
}

/// An identifier and a token at hand for a user who may have to be created.
pub struct FreshUser {
    pub uuid: String,
    pub auth_token: String,
}

pub struct FreshUserView {
    pub uuid: Seq<char>,
    pub auth_token: Seq<char>,
}

impl DeepView for FreshUser {
    type V = FreshUserView;

    open spec fn deep_view(&self) -> FreshUserView {
        FreshUserView { uuid: self.uuid@, auth_token: self.auth_token@ }
    }
}

impl View for FreshUser {
    type V = FreshUserView;

    open spec fn view(&self) -> FreshUserView {
        self.deep_view()
    }
}

/// What a request that changes the members of a list is answered with: what
/// the user is told, and the invitations to send. Where the request fails on
/// the way, the invitations of the members added before stand.
pub struct ListAnswer {
    pub answer: Result<String, Failure>,
    pub invites: Vec<Invite>,
}

/// How far adding members has come: the failure that stopped it, if any,
/// the invitations so far, and the store.
pub struct Invited {
    pub failure: Option<FailureView>,
    pub invites: Seq<InviteView>,
    pub tables: Tables,
}

/// `user` made a member of the list, and the invitation for them.
pub open spec fn invite_member(t: Tables, list_name: Seq<char>, list_uuid: Seq<char>, user: UserView) -> (
    Result<InviteView, FailureView>,
    Tables,
) {
    let joined = t.with_member(list_uuid, user.uuid);
    match joined.user_by_uuid(user.uuid) {
        Some(row) => (
            Ok(InviteView { list_name: list_name, user: user, auth_token: row.auth_token }),
            joined,
        ),
        None => (Err(FailureView::NotFound), joined),
    }
}

/// The user that a form entry becomes where nobody has its email yet.
pub open spec fn new_user(entry: ListUserView, uuid: Seq<char>) -> UserView {
    UserView { uuid: uuid, email: entry.email, name: entry.name, can_create: false, is_me: false }
}

/// Adding the person of a form entry to a list: the user with that email,
/// or a new user under `fresh` where there is none, becomes a member and is
/// invited.
pub open spec fn add_list_user_of(
    t: Tables,
    list_name: Seq<char>,
    list_uuid: Seq<char>,
    current: Seq<char>,
    entry: ListUserView,
    fresh: FreshUserView,
) -> (Result<InviteView, FailureView>, Tables) {
    match t.user_by_email(entry.email) {
        Some(u) => invite_member(
            t,
            list_name,
            list_uuid,
            UserView { is_me: false, ..user_record(u, Seq::empty()) },
        ),
        None => if t.user_by_uuid(fresh.uuid) is Some {
            (Err(FailureView::StoreFailure), t)
        } else {
            let created = t.with_user(new_user(entry, fresh.uuid), fresh.auth_token);
            match created.user_by_uuid(fresh.uuid) {
                Some(row) => invite_member(created, list_name, list_uuid, user_record(row, current)),
                None => (Err(FailureView::NotFound), created),
            }
        },
    }
}

/// Adding the first `n` entries of a form to a list in their order, but for
/// those whose email is among `known`; stopping at the first that fails.
pub open spec fn add_list_users_upto(
    t: Tables,
    list_name: Seq<char>,
    list_uuid: Seq<char>,
    current: Seq<char>,
    users: Seq<ListUserView>,
    fresh: Seq<FreshUserView>,
    known: Seq<Seq<char>>,
    n: nat,
) -> Invited
    decreases n,
{
    if n == 0 {
        Invited { failure: None, invites: Seq::empty(), tables: t }
    } else {
        let before = add_list_users_upto(
            t,
            list_name,
            list_uuid,
            current,
            users,
            fresh,
            known,
            (n - 1) as nat,
        );
        if before.failure is Some || known.contains(users[n - 1].email) {
            before
        } else {
            let step = add_list_user_of(
                before.tables,
                list_name,
                list_uuid,
                current,
                users[n - 1],
                fresh[n - 1],
            );
            match step.0 {
                Ok(invite) => Invited {
                    failure: None,
                    invites: before.invites.push(invite),
                    tables: step.1,
                },
                Err(e) => Invited { failure: Some(e), invites: before.invites, tables: step.1 },
            }
        }
    }
}

/// What the user is told when members have been added.
pub open spec fn members_answer(done: Invited) -> Result<Seq<char>, FailureView> {
    match done.failure {
        None => Ok("Success!"@),
        Some(e) => Err(e),
    }
}

/// What a request to create a list gives, where `list_uuid` and `fresh` are
/// the identifiers and tokens at hand: the answer, the invitations, and the
/// store afterwards.
pub open spec fn create_list_of(
    t: Tables,
    form: CreateListView,
    cookie: Option<Seq<char>>,
    list_uuid: Seq<char>,
    fresh: Seq<FreshUserView>,
) -> (Result<Seq<char>, FailureView>, Seq<InviteView>, Tables) {
    match current_user_of(t, cookie) {
        Err(e) => (Err(e), Seq::empty(), t),
        Ok(user) => if !user.can_create {
            (Ok("You don't have permission to create lists"@), Seq::empty(), t)
        } else if t.list_by_uuid(list_uuid) is Some {
            (Err(FailureView::StoreFailure), Seq::empty(), t)
        } else {
            let done = add_list_users_upto(
                t.with_list(
                    ListView { uuid: list_uuid, name: form.name, owner: user.uuid, im_owner: true },
                ),
                form.name,
                list_uuid,
                user.uuid,
                form.users,
                fresh,
                Seq::empty(),
                form.users.len(),
            );
            (members_answer(done), done.invites, done.tables)
        },
    }
}

/// The email of a user.
pub open spec fn email_fn() -> spec_fn(UserView) -> Seq<char> {
    |u: UserView| u.email
}

/// What a request to rename a list and add members gives: only the owner
/// changes a list, and who is a member already is not added again.
pub open spec fn modify_list_of(
    t: Tables,
    form: ModifyListView,
    cookie: Option<Seq<char>>,
    fresh: Seq<FreshUserView>,
) -> (Result<Seq<char>, FailureView>, Seq<InviteView>, Tables) {
    match current_user_of(t, cookie) {
        Err(e) => (Err(e), Seq::empty(), t),
        Ok(user) => match t.list_by_uuid(form.uuid) {
            None => (Err(FailureView::NotFound), Seq::empty(), t),
            Some(l) => if l.owner != user.uuid {
                (Ok("Can't modify list you don't own"@), Seq::empty(), t)
            } else {
                let renamed = t.with_list_modified(
                    ListView { name: form.name, ..list_record(l, user.uuid) },
                );
                let done = add_list_users_upto(
                    renamed,
                    form.name,
                    form.uuid,
                    user.uuid,
                    form.users,
                    fresh,
                    renamed.users_of_list(form.uuid, user.uuid).map_values(email_fn()),
                    form.users.len(),
                );
                (members_answer(done), done.invites, done.tables)
            },
        },
    }
}

/// `fresh` holds, for each of `n` form entries, an identifier and a token
/// of the shapes that fresh ones have.
pub open spec fn fresh_for(fresh: Seq<FreshUserView>, n: nat) -> bool {
    &&& fresh.len() == n
    &&& forall|i: int|
        0 <= i < n ==> is_uuid_text((#[trigger] fresh[i]).uuid) && is_token_text(fresh[i].auth_token)
}

fn mint_users(n: usize) -> (fresh: Vec<FreshUser>)
    ensures
        fresh_for(fresh.deep_view(), n as nat),
{
    let mut fresh: Vec<FreshUser> = Vec::new();
    let mut i: usize = 0;
    while i < n
        invariant
            i <= n,
            fresh_for(fresh.deep_view(), i as nat),
        decreases n - i,
    {
        let ghost before = fresh.deep_view();
        fresh.push(FreshUser { uuid: new_uuid(), auth_token: new_auth_token() });
        assert forall|j: int| 0 <= j < i + 1 implies is_uuid_text(
            (#[trigger] fresh.deep_view()[j]).uuid,
        ) && is_token_text(fresh.deep_view()[j].auth_token) by {
            if j < i {
                assert(fresh.deep_view()[j] == before[j]);
            }
        }
        i += 1;
    }
    fresh
}

fn emails_of(users: &Vec<User>) -> (r: Vec<String>)
    ensures
        r.deep_view() == users.deep_view().map_values(email_fn()),
{
    let mut out: Vec<String> = Vec::new();
    let mut i: usize = 0;
    while i < users.len()
        invariant
            i <= users.len(),
            out@.len() == i,
            forall|j: int| 0 <= j < i ==> (#[trigger] out@[j])@ == users@[j]@.email,
        decreases users.len() - i,
    {
        out.push(users[i].email.clone());
        i += 1;
    }
    assert(out.deep_view() =~= users.deep_view().map_values(email_fn()));
    out
}

fn has_email(known: &Vec<String>, email: &String) -> (b: bool)
    ensures
        b == known.deep_view().contains(email@),
{
    let mut i: usize = 0;
    while i < known.len()
        invariant
            i <= known.len(),
            forall|j: int| 0 <= j < i ==> #[trigger] known.deep_view()[j] != email@,
        decreases known.len() - i,
    {
        if known[i] == *email {
            assert(known.deep_view()[i as int] == email@);
            return true;
        }
        i += 1;
    }
    false
}

fn invite(conn: &mut DbConn, list_name: String, list_uuid: String, user: User) -> (r: Result<Invite, Failure>)
    ensures
        match r {
            Ok(i) => invite_member(old(conn)@, list_name@, list_uuid@, user@) == (
                Ok::<InviteView, FailureView>(i@),
                final(conn)@,
            ),
            Err(e) => invite_member(old(conn)@, list_name@, list_uuid@, user@) == (
                Err::<InviteView, FailureView>(e@),
                final(conn)@,
            ),
        },
        old(conn)@.wf() ==> final(conn)@.wf(),
{
    conn.add_user_to_list(user.uuid.clone(), list_uuid);
    match conn.auth_token_from_user(user.uuid.clone()) {
        Ok(auth_token) => Ok(Invite { list_name, user, auth_token }),
        Err(_) => Err(Failure::NotFound),
    }
}

fn add_members(
    conn: &mut DbConn,
    list_name: &String,
    list_uuid: &String,
    current: &String,
    users: &Vec<ListUser>,
    fresh: &Vec<FreshUser>,
    known: &Vec<String>,
) -> (r: ListAnswer)
    requires
        fresh@.len() == users@.len(),
    ensures
        ({
            let done = add_list_users_upto(
                old(conn)@,
                list_name@,
                list_uuid@,
                current@,
                users.deep_view(),
                fresh.deep_view(),
                known.deep_view(),
                users@.len(),
            );
            &&& text_outcome(r.answer) == members_answer(done)
            &&& r.invites.deep_view() == done.invites
            &&& final(conn)@ == done.tables
        }),
        old(conn)@.wf() ==> final(conn)@.wf(),
{
    let mut invites: Vec<Invite> = Vec::new();
    let mut i: usize = 0;
    assert(invites.deep_view() =~= Seq::empty());
    while i < users.len()
        invariant
            i <= users.len(),
            fresh@.len() == users@.len(),
            old(conn)@.wf() ==> conn@.wf(),
            add_list_users_upto(
                old(conn)@,
                list_name@,
                list_uuid@,
                current@,
                users.deep_view(),
                fresh.deep_view(),
                known.deep_view(),
                i as nat,
            ) == (Invited { failure: None, invites: invites.deep_view(), tables: conn@ }),
        decreases users.len() - i,
    {
        if !has_email(known, &users[i].email) {
            let ghost before = invites.deep_view();
            let entry = ListUser { name: users[i].name.clone(), email: users[i].email.clone() };
            let one = FreshUser { uuid: fresh[i].uuid.clone(), auth_token: fresh[i].auth_token.clone() };
            match WebServer::create_user_and_add_to_list_with(
                list_name.clone(),
                list_uuid.clone(),
                current.clone(),
                entry,
                conn,
                one,
            ) {
                Ok(invite) => {
                    invites.push(invite);
                    assert(invites.deep_view() =~= before.push(invite@));
                },
                Err(e) => {
                    proof {
                        lemma_adding_stops(
                            old(conn)@,
                            list_name@,
                            list_uuid@,
                            current@,
                            users.deep_view(),
                            fresh.deep_view(),
                            known.deep_view(),
                            (i + 1) as nat,
                            users@.len(),
                        );
                    }
                    return ListAnswer { answer: Err(e), invites };
                },
            }
        }
        i += 1;
    }
    ListAnswer { answer: Ok(text("Success!")), invites }
}

/// Once adding a member has failed, the entries after it change nothing.
pub proof fn lemma_adding_stops(
    t: Tables,
    list_name: Seq<char>,
    list_uuid: Seq<char>,
    current: Seq<char>,
    users: Seq<ListUserView>,
    fresh: Seq<FreshUserView>,
    known: Seq<Seq<char>>,
    k: nat,
    n: nat,
)
    requires
        k <= n,
        add_list_users_upto(t, list_name, list_uuid, current, users, fresh, known, k).failure is Some,
    ensures
        add_list_users_upto(t, list_name, list_uuid, current, users, fresh, known, n)
            == add_list_users_upto(t, list_name, list_uuid, current, users, fresh, known, k),
    decreases n,
{
    if k < n {
        lemma_adding_stops(t, list_name, list_uuid, current, users, fresh, known, k, (n - 1) as nat);
    }
}

/// Where no two users share an email, none do after members have been
/// added: a user is created only for an email that nobody has.
pub proof fn lemma_adding_keeps_emails_distinct(
    t: Tables,
    list_name: Seq<char>,
    list_uuid: Seq<char>,
    current: Seq<char>,
    users: Seq<ListUserView>,
    fresh: Seq<FreshUserView>,
    known: Seq<Seq<char>>,
    n: nat,
)
    requires
        t.emails_distinct(),
    ensures
        add_list_users_upto(
            t,
            list_name,
            list_uuid,
            current,
            users,
            fresh,
            known,
            n,
        ).tables.emails_distinct(),
    decreases n,
{
    if n > 0 {
        lemma_adding_keeps_emails_distinct(
            t,
            list_name,
            list_uuid,
            current,
            users,
            fresh,
            known,
            (n - 1) as nat,
        );
        let before = add_list_users_upto(
            t,
            list_name,
            list_uuid,
            current,
            users,
            fresh,
            known,
            (n - 1) as nat,
        );
        let entry = users[n - 1];
        if before.tables.user_by_email(entry.email) is None {
            lemma_find_first_sound(before.tables.users, user_has_email(entry.email));
            lemma_push_distinct(
                before.tables.users,
                user_row(new_user(entry, fresh[n - 1].uuid), fresh[n - 1].auth_token),
                user_email(),
            );
        }
    }
}

/// Creating a list and changing one keep emails distinct, too.
pub proof fn lemma_list_forms_keep_emails_distinct(
    t: Tables,
    created: CreateListView,
    modified: ModifyListView,
    cookie: Option<Seq<char>>,
    list_uuid: Seq<char>,
    fresh: Seq<FreshUserView>,
)
    requires
        t.emails_distinct(),
    ensures
        create_list_of(t, created, cookie, list_uuid, fresh).2.emails_distinct(),
        modify_list_of(t, modified, cookie, fresh).2.emails_distinct(),
{
    match current_user_of(t, cookie) {
        Err(_) => {},
        Ok(user) => {
            let listed = t.with_list(
                ListView { uuid: list_uuid, name: created.name, owner: user.uuid, im_owner: true },
            );
            lemma_adding_keeps_emails_distinct(
                listed,
                created.name,
                list_uuid,
                user.uuid,
                created.users,
                fresh,
                Seq::empty(),
                created.users.len(),
            );
            match t.list_by_uuid(modified.uuid) {
                None => {},
                Some(l) => {
                    let renamed = t.with_list_modified(
                        ListView { name: modified.name, ..list_record(l, user.uuid) },
                    );
                    lemma_adding_keeps_emails_distinct(
                        renamed,
                        modified.name,
                        modified.uuid,
                        user.uuid,
                        modified.users,
                        fresh,
                        renamed.users_of_list(modified.uuid, user.uuid).map_values(email_fn()),
                        modified.users.len(),
                    );
                },
            }
        },
    }
}

impl WebServer {
    /// Adds the person of a form entry to a list and composes their
    /// invitation. Where nobody has the entry's email yet, a user is created
    /// under the identifier and with the token of `fresh`.
    pub fn create_user_and_add_to_list_with(
        list_name: String,
        list_uuid: String,
        current_user_uuid: String,
        list_user: ListUser,
        conn: &mut DbConn,
        fresh: FreshUser,
    ) -> (r: Result<Invite, Failure>)
        ensures
            match r {
                Ok(i) => add_list_user_of(
                    old(conn)@,
                    list_name@,
                    list_uuid@,
                    current_user_uuid@,
                    list_user@,
                    fresh@,
                ) == (Ok::<InviteView, FailureView>(i@), final(conn)@),
                Err(e) => add_list_user_of(
                    old(conn)@,
                    list_name@,
                    list_uuid@,
                    current_user_uuid@,
                    list_user@,
                    fresh@,
                ) == (Err::<InviteView, FailureView>(e@), final(conn)@),
            },
            old(conn)@.wf() ==> final(conn)@.wf(),
    {
        let user = match conn.user_from_email(list_user.email.clone()) {
            Ok(u) => u,
            Err(_) => {
                let created = User {
                    uuid: fresh.uuid.clone(),
                    email: list_user.email,
                    name: list_user.name,
                    can_create: false,
                    is_me: false,
                };
                match conn.create_user(created, fresh.auth_token) {
                    Ok(()) => {},
                    Err(e) => {
                        return Err(e);
                    },
                }
                match conn.user_from_uuid(fresh.uuid, current_user_uuid) {
                    Ok(u) => u,
                    Err(_) => {
                        return Err(Failure::NotFound);
                    },
                }
            },
        };
        invite(conn, list_name, list_uuid, user)
    }

    /// Adds the person of a form entry to a list and composes their
    /// invitation. The identifier and the token for a user who has to be
    /// created are drawn at random.
    pub fn create_user_and_add_to_list(
        list_name: String,
        list_uuid: String,
        current_user_uuid: String,
        list_user: ListUser,
        conn: &mut DbConn,
    ) -> (r: Result<Invite, Failure>)
        ensures
            exists|fresh: FreshUserView|
                is_uuid_text(fresh.uuid) && is_token_text(fresh.auth_token) && match r {
                    Ok(i) => #[trigger] add_list_user_of(
                        old(conn)@,
                        list_name@,
                        list_uuid@,
                        current_user_uuid@,
                        list_user@,
                        fresh,
                    ) == (Ok::<InviteView, FailureView>(i@), final(conn)@),
                    Err(e) => add_list_user_of(
                        old(conn)@,
                        list_name@,
                        list_uuid@,
                        current_user_uuid@,
                        list_user@,
                        fresh,
                    ) == (Err::<InviteView, FailureView>(e@), final(conn)@),
                },
            old(conn)@.wf() ==> final(conn)@.wf(),
    {
        let fresh = FreshUser { uuid: new_uuid(), auth_token: new_auth_token() };
        let ghost drawn = fresh@;
        let r = WebServer::create_user_and_add_to_list_with(
            list_name,
            list_uuid,
            current_user_uuid,
            list_user,
            conn,
            fresh,
        );
        assert(match r {
            Ok(i) => add_list_user_of(
                old(conn)@,
                list_name@,
                list_uuid@,
                current_user_uuid@,
                list_user@,
                drawn,
            ) == (Ok::<InviteView, FailureView>(i@), conn@),
            Err(e) => add_list_user_of(
                old(conn)@,
                list_name@,
                list_uuid@,
                current_user_uuid@,
                list_user@,
                drawn,
            ) == (Err::<InviteView, FailureView>(e@), conn@),
        });
        r
    }

    /// Creates a list under `list_uuid` for the user of the request, who
    /// must be allowed to, and adds the members that the form names, with
    /// `fresh[i]` at hand for the entry `list.users[i]`.
    pub fn create_list_with(
        list: &CreateList,
        cookie: Option<String>,
        conn: &mut DbConn,
        list_uuid: String,
        fresh: &Vec<FreshUser>,
    ) -> (r: ListAnswer)
        requires
            fresh@.len() == list.users@.len(),
        ensures
            (text_outcome(r.answer), r.invites.deep_view(), final(conn)@) == create_list_of(
                old(conn)@,
                list@,
                cookie.deep_view(),
                list_uuid@,
                fresh.deep_view(),
            ),
            old(conn)@.wf() ==> final(conn)@.wf(),
    {
        let current_user = match WebServer::get_current_user(cookie, conn) {
            Ok(u) => u,
            Err(e) => {
                return ListAnswer { answer: Err(e), invites: Vec::new() };
            },
        };
        if !current_user.can_create {
            return ListAnswer {
                answer: Ok(text("You don't have permission to create lists")),
                invites: Vec::new(),
            };
        }
        let list_data = List {
            uuid: list_uuid.clone(),
            name: list.name.clone(),
            owner: current_user.uuid.clone(),
            im_owner: true,
        };
        match conn.create_list(list_data) {
            Ok(()) => {},
            Err(e) => {
                return ListAnswer { answer: Err(e), invites: Vec::new() };
            },
        }
        let known: Vec<String> = Vec::new();
        assert(known.deep_view() =~= Seq::empty());
        add_members(conn, &list.name, &list_uuid, &current_user.uuid, &list.users, fresh, &known)
    }

    /// Creates a list for the user of the request and adds the members that
    /// the form names. The identifiers and tokens are drawn at random.
    pub fn create_list(list: &CreateList, cookie: Option<String>, conn: &mut DbConn) -> (r: ListAnswer)
        ensures
            exists|list_uuid: Seq<char>, fresh: Seq<FreshUserView>|
                is_uuid_text(list_uuid) && fresh_for(fresh, list@.users.len()) && #[trigger] create_list_of(
                    old(conn)@,
                    list@,
                    cookie.deep_view(),
                    list_uuid,
                    fresh,
                ) == (text_outcome(r.answer), r.invites.deep_view(), final(conn)@),
            old(conn)@.wf() ==> final(conn)@.wf(),
    {
        let list_uuid = new_uuid();
        let fresh = mint_users(list.users.len());
        let ghost drawn = list_uuid@;
        let r = WebServer::create_list_with(list, cookie, conn, list_uuid, &fresh);
        assert(create_list_of(old(conn)@, list@, cookie.deep_view(), drawn, fresh.deep_view()) == (
            text_outcome(r.answer),
            r.invites.deep_view(),
            conn@,
        ));
        r
    }

    /// Renames a list for its owner and adds the members that the form names
    /// and that the list does not have, with `fresh[i]` at hand for the
    /// entry `list.users[i]`.
    pub fn modify_list_with(list: &ModifyList, cookie: Option<String>, conn: &mut DbConn, fresh: &Vec<FreshUser>) -> (r:
        ListAnswer)
        requires
            fresh@.len() == list.users@.len(),
        ensures
            (text_outcome(r.answer), r.invites.deep_view(), final(conn)@) == modify_list_of(
                old(conn)@,
                list@,
                cookie.deep_view(),
                fresh.deep_view(),
            ),
            old(conn)@.wf() ==> final(conn)@.wf(),
    {
        let current_user = match WebServer::get_current_user(cookie, conn) {
            Ok(u) => u,
            Err(e) => {
                return ListAnswer { answer: Err(e), invites: Vec::new() };
            },
        };
        let list_data = match conn.list_from_uuid(list.uuid.clone(), current_user.uuid.clone()) {
            Ok(l) => l,
            Err(_) => {
                return ListAnswer { answer: Err(Failure::NotFound), invites: Vec::new() };
            },
        };
        if !list_data.im_owner {
            return ListAnswer {
                answer: Ok(text("Can't modify list you don't own")),
                invites: Vec::new(),
            };
        }
        let renamed = List {
            uuid: list_data.uuid,
            name: list.name.clone(),
            owner: list_data.owner,
            im_owner: list_data.im_owner,
        };
        conn.modify_list(renamed);
        let users = conn.users_of_list(list.uuid.clone(), current_user.uuid.clone());
        let known = emails_of(&users);
        add_members(conn, &list.name, &list.uuid, &current_user.uuid, &list.users, fresh, &known)
    }

    /// Renames a list for its owner and adds the members that the form names
    /// and that the list does not have. The identifiers and tokens are drawn
    /// at random.
    pub fn modify_list(list: &ModifyList, cookie: Option<String>, conn: &mut DbConn) -> (r: ListAnswer)
        ensures
            exists|fresh: Seq<FreshUserView>|
                fresh_for(fresh, list@.users.len()) && #[trigger] modify_list_of(
                    old(conn)@,
                    list@,
                    cookie.deep_view(),
                    fresh,
                ) == (text_outcome(r.answer), r.invites.deep_view(), final(conn)@),
            old(conn)@.wf() ==> final(conn)@.wf(),
    {
        let fresh = mint_users(list.users.len());
        let r = WebServer::modify_list_with(list, cookie, conn, &fresh);
        assert(modify_list_of(old(conn)@, list@, cookie.deep_view(), fresh.deep_view()) == (
            text_outcome(r.answer),
            r.invites.deep_view(),
            conn@,
        ));
        r
    }
}

} // verus!
