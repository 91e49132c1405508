//! The pages of the site: what each shows to whom, and through which
//! template.

use crate::data::{
    ExportGift, ExportGiftView, Gift, GiftView, List, ListPage, ListPageView, ListUser,
    ListUserPage, ListUserView, ListView, ModifyListPage, ModifyListPageView, User, UserPage,
    UserPageView, UserView,
};
use crate::db::DbConn;
use crate::failure::{Failure, FailureView};
use crate::tables::{list_record, user_record, Tables};
use crate::webserver::{current_user_of, text, WebServer};
use vstd::prelude::*;

verus! {

/// What the page script gets of a gift: the claimer reduced to a name and a
/// flag.
pub open spec fn export_gift(g: GiftView) -> ExportGiftView {
    ExportGiftView {
        uuid: g.uuid,
        url: g.url,
        comment: g.comment,
        claimed: g.claimed,
        claimed_by_name: match g.claimed_by {
            Some(u) => u.name,
            None => "null"@,
        },
        claimed_by_me: match g.claimed_by {
            Some(u) => u.is_me,
            None => false,
        },
        alternate_to_uuid: g.alternate_to_uuid,
    }
}

/// `export_gift`, as a function.
pub open spec fn export_gift_fn() -> spec_fn(GiftView) -> ExportGiftView {
    |g: GiftView| export_gift(g)
}

/// The form entry of a member: name and email.
pub open spec fn list_user_fn() -> spec_fn(UserView) -> ListUserView {
    |u: UserView| ListUserView { name: u.name, email: u.email }
}

/// The page of one member's gifts, before the gifts are serialised.
#[derive(Debug)]
pub struct ListUserContent {
    pub user: User,
    pub current_user: User,
    pub list: List,
    pub gifts: Vec<ExportGift>,
}

pub struct ListUserContentView {
    pub user: UserView,
    pub current_user: UserView,
    pub list: ListView,
    pub gifts: Seq<ExportGiftView>,
}

impl DeepView for ListUserContent {
    type V = ListUserContentView;

    open spec fn deep_view(&self) -> ListUserContentView {
        ListUserContentView {
            user: self.user@,
            current_user: self.current_user@,
            list: self.list@,
            gifts: self.gifts.deep_view(),
        }
    }
}

impl View for ListUserContent {
    type V = ListUserContentView;

    open spec fn view(&self) -> ListUserContentView {
        self.deep_view()
    }
}

impl ListUserContent {
    /// The context of the page, with the gifts as `gifts_data` spells them.
    pub fn into_page(self, gifts_data: String) -> (page: ListUserPage)
        ensures
            page@.user == self@.user,
            page@.current_user == self@.current_user,
            page@.list == self@.list,
            page@.gifts_data == gifts_data@,
    {
        ListUserPage {
            user: self.user,
            current_user: self.current_user,
            list: self.list,
            gifts_data,
        }
    }
}

/// What a request for a page is answered with.
#[derive(Debug)]
pub enum Page {
    Index,
    User(UserPage),
    List(ListPage),
    ListUser(ListUserContent),
    CreateList,
    ModifyList(ModifyListPage),
    NotFound,
    AccessDenied,
    InternalError,
}

pub enum PageView {
    Index,
    User(UserPageView),
    List(ListPageView),
    ListUser(ListUserContentView),
    CreateList,
    ModifyList(ModifyListPageView),
    NotFound,
    AccessDenied,
    InternalError,
}

impl DeepView for Page {
    type V = PageView;

    open spec fn deep_view(&self) -> PageView {
        match self {
            Page::Index => PageView::Index,
            Page::User(p) => PageView::User(p@),
            Page::List(p) => PageView::List(p@),
            Page::ListUser(p) => PageView::ListUser(p@),
            Page::CreateList => PageView::CreateList,
            Page::ModifyList(p) => PageView::ModifyList(p@),
            Page::NotFound => PageView::NotFound,
            Page::AccessDenied => PageView::AccessDenied,
            Page::InternalError => PageView::InternalError,
        }
    }
}

impl View for Page {
    type V = PageView;

    open spec fn view(&self) -> PageView {
        self.deep_view()
    }
}

/// The name of the template that shows `page`. A member sees their own
/// gifts through another template than the gifts of others.
pub open spec fn template_of(page: PageView) -> Seq<char> {
    match page {
        PageView::Index => "index"@,
        PageView::User(_) => "user"@,
        PageView::List(_) => "list"@,
        PageView::ListUser(p) => if p.user.is_me {
            "list_user_self"@
        } else {
            "list_user_other"@
        },
        PageView::CreateList => "create_list"@,
        PageView::ModifyList(_) => "modify_list"@,
        PageView::NotFound => "not_found"@,
        PageView::AccessDenied => "access_denied"@,
        PageView::InternalError => "internal_error"@,
    }
}

impl Page {
    /// The name of the template that shows the page.
    pub fn template(&self) -> (name: String)
        ensures
            name@ == template_of(self@),
    {
        match self {
            Page::Index => text("index"),
            Page::User(_) => text("user"),
            Page::List(_) => text("list"),
            Page::ListUser(p) => if p.user.is_me {
                text("list_user_self")
            } else {
                text("list_user_other")
            },
            Page::CreateList => text("create_list"),
            Page::ModifyList(_) => text("modify_list"),
            Page::NotFound => text("not_found"),
            Page::AccessDenied => text("access_denied"),
            Page::InternalError => text("internal_error"),
        }
    }
}

/// The view of a result that carries a page.
pub open spec fn page_outcome(r: Result<Page, Failure>) -> Result<PageView, FailureView> {
    match r {
        Ok(p) => Ok(p@),
        Err(e) => Err(e@),
    }
}

/// The page of the user's lists.
pub open spec fn user_page_of(t: Tables, cookie: Option<Seq<char>>) -> Result<PageView, FailureView> {
    match current_user_of(t, cookie) {
        Err(e) => Err(e),
        Ok(user) => Ok(
            PageView::User(UserPageView { current_user: user, lists: t.lists_of_user(user.uuid) }),
        ),
    }
}

/// The page of a list: its members, and its owner by name.
pub open spec fn list_page_of(t: Tables, list_uuid: Seq<char>, cookie: Option<Seq<char>>) -> Result<
    PageView,
    FailureView,
> {
    match current_user_of(t, cookie) {
        Err(e) => Err(e),
        Ok(user) => match t.list_by_uuid(list_uuid) {
            None => Err(FailureView::NotFound),
            Some(l) => match t.user_by_uuid(l.owner) {
                None => Err(FailureView::NotFound),
                Some(owner) => Ok(
                    PageView::List(
                        ListPageView {
                            list: ListView { owner: owner.name, ..list_record(l, user.uuid) },
                            current_user: user,
                            users: t.users_of_list(list_uuid, user.uuid),
                        },
                    ),
                ),
            },
        },
    }
}

/// The page of the gifts of the member `user_uuid` on a list.
pub open spec fn list_user_page_of(
    t: Tables,
    list_uuid: Seq<char>,
    user_uuid: Seq<char>,
    cookie: Option<Seq<char>>,
) -> Result<PageView, FailureView> {
    match current_user_of(t, cookie) {
        Err(e) => Err(e),
        Ok(user) => match t.user_by_uuid(user_uuid) {
            None => Err(FailureView::NotFound),
            Some(member) => match t.list_by_uuid(list_uuid) {
                None => Err(FailureView::NotFound),
                Some(l) => Ok(
                    PageView::ListUser(
                        ListUserContentView {
                            user: user_record(member, user.uuid),
                            current_user: user,
                            list: list_record(l, user.uuid),
                            gifts: t.gifts_of_list_user(list_uuid, user_uuid, user.uuid).map_values(
                                export_gift_fn(),
                            ),
                        },
                    ),
                ),
            },
        },
    }
}

/// The page on which a list is created, for those who may create lists.
pub open spec fn create_list_page_of(t: Tables, cookie: Option<Seq<char>>) -> Result<PageView, FailureView> {
    match current_user_of(t, cookie) {
        Err(e) => Err(e),
        Ok(user) => if user.can_create {
            Ok(PageView::CreateList)
        } else {
            Ok(PageView::NotFound)
        },
    }
}

/// The page on which a list is edited, for its owner.
pub open spec fn modify_list_page_of(t: Tables, list_uuid: Seq<char>, cookie: Option<Seq<char>>) -> Result<
    PageView,
    FailureView,
> {
    match current_user_of(t, cookie) {
        Err(e) => Err(e),
        Ok(user) => match t.list_by_uuid(list_uuid) {
            None => Err(FailureView::NotFound),
            Some(l) => if l.owner != user.uuid {
                Ok(PageView::NotFound)
            } else {
                Ok(
                    PageView::ModifyList(
                        ModifyListPageView {
                            current_user: user,
                            list: list_record(l, user.uuid),
                            users: t.users_of_list(l.list_uuid, user.uuid).map_values(
                                list_user_fn(),
                            ),
                        },
                    ),
                )
            },
        },
    }
}

fn export(gift: &Gift) -> (r: ExportGift)
    ensures
        r@ == export_gift(gift@),
{
    ExportGift {
        uuid: gift.uuid.clone(),
        url: gift.url.clone(),
        comment: gift.comment.clone(),
        claimed: gift.claimed,
        claimed_by_name: match &gift.claimed_by {
            Some(u) => u.name.clone(),
            None => text("null"),
        },
        claimed_by_me: match &gift.claimed_by {
            Some(u) => u.is_me,
            None => false,
        },
        alternate_to_uuid: match &gift.alternate_to_uuid {
            Some(a) => Some(a.clone()),
            None => None,
        },
    }
}

fn export_all(gifts: &Vec<Gift>) -> (r: Vec<ExportGift>)
    ensures
        r.deep_view() == gifts.deep_view().map_values(export_gift_fn()),
{
    let mut out: Vec<ExportGift> = Vec::new();
    let mut i: usize = 0;
    while i < gifts.len()
        invariant
            i <= gifts.len(),
            out@.len() == i,
            forall|j: int| 0 <= j < i ==> (#[trigger] out@[j])@ == export_gift(gifts@[j]@),
        decreases gifts.len() - i,
    {
        out.push(export(&gifts[i]));
        i += 1;
    }
    assert(out.deep_view() =~= gifts.deep_view().map_values(export_gift_fn()));
    out
}

fn list_users(users: &Vec<User>) -> (r: Vec<ListUser>)
    ensures
        r.deep_view() == users.deep_view().map_values(list_user_fn()),
{
    let mut out: Vec<ListUser> = Vec::new();
    let mut i: usize = 0;
    while i < users.len()
        invariant
            i <= users.len(),
            out@.len() == i,
            forall|j: int| 0 <= j < i ==> (#[trigger] out@[j])@ == list_user_fn()(users@[j]@),
        decreases users.len() - i,
    {
        out.push(ListUser { name: users[i].name.clone(), email: users[i].email.clone() });
        i += 1;
    }
    assert(out.deep_view() =~= users.deep_view().map_values(list_user_fn()));
    out
}

impl WebServer {
    /// The page shown where access is denied.
    pub fn access_denied() -> (page: Page)
        ensures
            page@ == PageView::AccessDenied,
    {
        Page::AccessDenied
    }

    /// The page shown where nothing is found.
    pub fn not_found() -> (page: Page)
        ensures
            page@ == PageView::NotFound,
    {
        Page::NotFound
    }

    /// The page shown where the server fails.
    pub fn internal_error() -> (page: Page)
        ensures
            page@ == PageView::InternalError,
    {
        Page::InternalError
    }

    /// The entry page.
    pub fn index() -> (page: Page)
        ensures
            page@ == PageView::Index,
    {
        Page::Index
    }

    /// The page of the user's lists.
    pub fn user_page(cookie: Option<String>, conn: &DbConn) -> (r: Result<Page, Failure>)
        ensures
            page_outcome(r) == user_page_of(conn@, cookie.deep_view()),
    {
        let current_user = match WebServer::get_current_user(cookie, conn) {
            Ok(u) => u,
            Err(e) => {
                return Err(e);
            },
        };
        let lists = conn.lists_of_user(current_user.uuid.clone());
        Ok(Page::User(UserPage { current_user, lists }))
    }

    /// The page of a list.
    pub fn list_page(list_uuid: String, cookie: Option<String>, conn: &DbConn) -> (r: Result<Page, Failure>)
        ensures
            page_outcome(r) == list_page_of(conn@, list_uuid@, cookie.deep_view()),
    {
        let current_user = match WebServer::get_current_user(cookie, conn) {
            Ok(u) => u,
            Err(e) => {
                return Err(e);
            },
        };
        let users = conn.users_of_list(list_uuid.clone(), current_user.uuid.clone());
        let list = match conn.list_from_uuid(list_uuid, current_user.uuid.clone()) {
            Ok(l) => l,
            Err(_) => {
                return Err(Failure::NotFound);
            },
        };
        let owner = match conn.user_from_uuid(list.owner.clone(), current_user.uuid.clone()) {
            Ok(u) => u,
            Err(_) => {
                return Err(Failure::NotFound);
            },
        };
        let shown = List { uuid: list.uuid, name: list.name, owner: owner.name, im_owner: list.im_owner };
        Ok(Page::List(ListPage { list: shown, current_user, users }))
    }

    /// The page of one member's gifts on a list.
    pub fn list_user_page(list_uuid: String, user_uuid: String, cookie: Option<String>, conn: &DbConn) -> (r:
        Result<Page, Failure>)
        ensures
            page_outcome(r) == list_user_page_of(conn@, list_uuid@, user_uuid@, cookie.deep_view()),
    {
        let current_user = match WebServer::get_current_user(cookie, conn) {
            Ok(u) => u,
            Err(e) => {
                return Err(e);
            },
        };
        let user = match conn.user_from_uuid(user_uuid.clone(), current_user.uuid.clone()) {
            Ok(u) => u,
            Err(_) => {
                return Err(Failure::NotFound);
            },
        };
        let list = match conn.list_from_uuid(list_uuid.clone(), current_user.uuid.clone()) {
            Ok(l) => l,
            Err(_) => {
                return Err(Failure::NotFound);
            },
        };
        let gifts = conn.gifts_of_list_user(list_uuid, user_uuid, current_user.uuid.clone());
        let exported = export_all(&gifts);
        Ok(Page::ListUser(ListUserContent { user, current_user, list, gifts: exported }))
    }

    /// The page on which a list is created.
    pub fn create_list_page(cookie: Option<String>, conn: &DbConn) -> (r: Result<Page, Failure>)
        ensures
            page_outcome(r) == create_list_page_of(conn@, cookie.deep_view()),
    {
        let current_user = match WebServer::get_current_user(cookie, conn) {
            Ok(u) => u,
            Err(e) => {
                return Err(e);
            },
        };
        if !current_user.can_create {
            return Ok(WebServer::not_found());
        }
        Ok(Page::CreateList)
    }

    /// The page on which a list is edited.
    pub fn modify_list_page(list_uuid: String, cookie: Option<String>, conn: &DbConn) -> (r: Result<
        Page,
        Failure,
    >)
        ensures
            page_outcome(r) == modify_list_page_of(conn@, list_uuid@, cookie.deep_view()),
    {
        let current_user = match WebServer::get_current_user(cookie, conn) {
            Ok(u) => u,
            Err(e) => {
                return Err(e);
            },
        };
        let list = match conn.list_from_uuid(list_uuid, current_user.uuid.clone()) {
            Ok(l) => l,
            Err(_) => {
                return Err(Failure::NotFound);
            },
        };
        if list.owner != current_user.uuid {
            return Ok(WebServer::not_found());
        }
        let members = conn.users_of_list(list.uuid.clone(), current_user.uuid.clone());
        let users = list_users(&members);
        Ok(Page::ModifyList(ModifyListPage { current_user, list, users }))
    }
}

} // verus!
