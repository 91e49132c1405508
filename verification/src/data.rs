//! Records handed to and taken from the presentation layer: what pages show,
//! what forms submit. Each record has a view in which every string is the
//! sequence of its characters.

use vstd::prelude::*;

verus! {

/// A user as a page shows it; `is_me` marks the viewer's own record.
#[derive(Debug)]
pub struct User {
    pub uuid: String,
    pub email: String,
    pub name: String,
    pub can_create: bool,
    pub is_me: bool,
}

pub struct UserView {
    pub uuid: Seq<char>,
    pub email: Seq<char>,
    pub name: Seq<char>,
    pub can_create: bool,
    pub is_me: bool,
}

impl DeepView for User {
    type V = UserView;

    open spec fn deep_view(&self) -> UserView {
        UserView {
            uuid: self.uuid@,
            email: self.email@,
            name: self.name@,
            can_create: self.can_create,
            is_me: self.is_me,
        }
    }
}

impl View for User {
    type V = UserView;

    open spec fn view(&self) -> UserView {
        self.deep_view()
    }
}

impl Clone for User {
    fn clone(&self) -> (r: Self)
        ensures
            r == *self,
    {
        User {
            uuid: self.uuid.clone(),
            email: self.email.clone(),
            name: self.name.clone(),
            can_create: self.can_create,
            is_me: self.is_me,
        }
    }
}

/// A gift list as a page shows it; `im_owner` tells whether the viewer owns it.
#[derive(Debug)]
pub struct List {
    pub uuid: String,
    pub name: String,
    pub owner: String,
    pub im_owner: bool,
}

pub struct ListView {
    pub uuid: Seq<char>,
    pub name: Seq<char>,
    pub owner: Seq<char>,
    pub im_owner: bool,
}

impl DeepView for List {
    type V = ListView;

    open spec fn deep_view(&self) -> ListView {
        ListView {
            uuid: self.uuid@,
            name: self.name@,
            owner: self.owner@,
            im_owner: self.im_owner,
        }
    }
}

impl View for List {
    type V = ListView;

    open spec fn view(&self) -> ListView {
        self.deep_view()
    }
}

impl Clone for List {
    fn clone(&self) -> (r: Self)
        ensures
            r == *self,
    {
        List {
            uuid: self.uuid.clone(),
            name: self.name.clone(),
            owner: self.owner.clone(),
            im_owner: self.im_owner,
        }
    }
}

/// A gift with its claim state; `claimed_by` is the claimer as far as the
/// user table knows them.
#[derive(Debug)]
pub struct Gift {
    pub uuid: String,
    pub owner: String,
    pub url: String,
    pub comment: String,
    pub claimed: bool,
    pub claimed_by: Option<User>,
    pub alternate_to_uuid: Option<String>,
}

pub struct GiftView {
    pub uuid: Seq<char>,
    pub owner: Seq<char>,
    pub url: Seq<char>,
    pub comment: Seq<char>,
    pub claimed: bool,
    pub claimed_by: Option<UserView>,
    pub alternate_to_uuid: Option<Seq<char>>,
}

impl DeepView for Gift {
    type V = GiftView;

    open spec fn deep_view(&self) -> GiftView {
        GiftView {
            uuid: self.uuid@,
            owner: self.owner@,
            url: self.url@,
            comment: self.comment@,
            claimed: self.claimed,
            claimed_by: self.claimed_by.deep_view(),
            alternate_to_uuid: self.alternate_to_uuid.deep_view(),
        }
    }
}

impl View for Gift {
    type V = GiftView;

    open spec fn view(&self) -> GiftView {
        self.deep_view()
    }
}

impl Clone for Gift {
    fn clone(&self) -> (r: Self)
        ensures
            r == *self,
    {
        Gift {
            uuid: self.uuid.clone(),
            owner: self.owner.clone(),
            url: self.url.clone(),
            comment: self.comment.clone(),
            claimed: self.claimed,
            claimed_by: match &self.claimed_by {
                Some(u) => Some(u.clone()),
                None => None,
            },
            alternate_to_uuid: match &self.alternate_to_uuid {
                Some(s) => Some(s.clone()),
                None => None,
            },
        }
    }
}

/// A gift as it is handed to the page script: the claimer reduced to a name
/// and a flag.
#[derive(Debug)]
pub struct ExportGift {
    pub uuid: String,
    pub url: String,
    pub comment: String,
    pub claimed: bool,
    pub claimed_by_name: String,
    pub claimed_by_me: bool,
    pub alternate_to_uuid: Option<String>,
}

pub struct ExportGiftView {
    pub uuid: Seq<char>,
    pub url: Seq<char>,
    pub comment: Seq<char>,
    pub claimed: bool,
    pub claimed_by_name: Seq<char>,
    pub claimed_by_me: bool,
    pub alternate_to_uuid: Option<Seq<char>>,
}

impl DeepView for ExportGift {
    type V = ExportGiftView;

    open spec fn deep_view(&self) -> ExportGiftView {
        ExportGiftView {
            uuid: self.uuid@,
            url: self.url@,
            comment: self.comment@,
            claimed: self.claimed,
            claimed_by_name: self.claimed_by_name@,
            claimed_by_me: self.claimed_by_me,
            alternate_to_uuid: self.alternate_to_uuid.deep_view(),
        }
    }
}

impl View for ExportGift {
    type V = ExportGiftView;

    open spec fn view(&self) -> ExportGiftView {
        self.deep_view()
    }
}

impl Clone for ExportGift {
    fn clone(&self) -> (r: Self)
        ensures
            r == *self,
    {
        ExportGift {
            uuid: self.uuid.clone(),
            url: self.url.clone(),
            comment: self.comment.clone(),
            claimed: self.claimed,
            claimed_by_name: self.claimed_by_name.clone(),
            claimed_by_me: self.claimed_by_me,
            alternate_to_uuid: match &self.alternate_to_uuid {
                Some(s) => Some(s.clone()),
                None => None,
            },
        }
    }
}

/// What the invitation template is filled with.
#[derive(Debug)]
pub struct InviteEmail {
    pub user_name: String,
    pub list_name: String,
    pub link: String,
    pub admin_email: String,
}

pub struct InviteEmailView {
    pub user_name: Seq<char>,
    pub list_name: Seq<char>,
    pub link: Seq<char>,
    pub admin_email: Seq<char>,
}

impl DeepView for InviteEmail {
    type V = InviteEmailView;

    open spec fn deep_view(&self) -> InviteEmailView {
        InviteEmailView {
            user_name: self.user_name@,
            list_name: self.list_name@,
            link: self.link@,
            admin_email: self.admin_email@,
        }
    }
}

impl View for InviteEmail {
    type V = InviteEmailView;

    open spec fn view(&self) -> InviteEmailView {
        self.deep_view()
    }
}

/// Context of the page that lists a user's gift lists.
#[derive(Debug)]
pub struct UserPage {
    pub current_user: User,
    pub lists: Vec<List>,
}

pub struct UserPageView {
    pub current_user: UserView,
    pub lists: Seq<ListView>,
}

impl DeepView for UserPage {
    type V = UserPageView;

    open spec fn deep_view(&self) -> UserPageView {
        UserPageView {
            current_user: self.current_user.deep_view(),
            lists: self.lists.deep_view(),
        }
    }
}

impl View for UserPage {
    type V = UserPageView;

    open spec fn view(&self) -> UserPageView {
        self.deep_view()
    }
}

/// Context of the page of one list and its members.
#[derive(Debug)]
pub struct ListPage {
    pub list: List,
    pub current_user: User,
    pub users: Vec<User>,
}

pub struct ListPageView {
    pub list: ListView,
    pub current_user: UserView,
    pub users: Seq<UserView>,
}

impl DeepView for ListPage {
    type V = ListPageView;

    open spec fn deep_view(&self) -> ListPageView {
        ListPageView {
            list: self.list.deep_view(),
            current_user: self.current_user.deep_view(),
            users: self.users.deep_view(),
        }
    }
}

impl View for ListPage {
    type V = ListPageView;

    open spec fn view(&self) -> ListPageView {
        self.deep_view()
    }
}

/// Context of the page of one member's gifts; `gifts_data` is the serialised
/// gift list.
#[derive(Debug)]
pub struct ListUserPage {
    pub user: User,
    pub current_user: User,
    pub list: List,
    pub gifts_data: String,
}

pub struct ListUserPageView {
    pub user: UserView,
    pub current_user: UserView,
    pub list: ListView,
    pub gifts_data: Seq<char>,
}

impl DeepView for ListUserPage {
    type V = ListUserPageView;

    open spec fn deep_view(&self) -> ListUserPageView {
        ListUserPageView {
            user: self.user.deep_view(),
            current_user: self.current_user.deep_view(),
            list: self.list.deep_view(),
            gifts_data: self.gifts_data@,
        }
    }
}

impl View for ListUserPage {
    type V = ListUserPageView;

    open spec fn view(&self) -> ListUserPageView {
        self.deep_view()
    }
}

/// Context of the page on which an owner edits a list.
#[derive(Debug)]
pub struct ModifyListPage {
    pub current_user: User,
    pub list: List,
    pub users: Vec<ListUser>,
}

pub struct ModifyListPageView {
    pub current_user: UserView,
    pub list: ListView,
    pub users: Seq<ListUserView>,
}

impl DeepView for ModifyListPage {
    type V = ModifyListPageView;

    open spec fn deep_view(&self) -> ModifyListPageView {
        ModifyListPageView {
            current_user: self.current_user.deep_view(),
            list: self.list.deep_view(),
            users: self.users.deep_view(),
        }
    }
}

impl View for ModifyListPage {
    type V = ModifyListPageView;

    open spec fn view(&self) -> ModifyListPageView {
        self.deep_view()
    }
}

/// A member as an owner names them on a form.
#[derive(Debug)]
pub struct ListUser {
    pub name: String,
    pub email: String,
}

pub struct ListUserView {
    pub name: Seq<char>,
    pub email: Seq<char>,
}

impl DeepView for ListUser {
    type V = ListUserView;

    open spec fn deep_view(&self) -> ListUserView {
        ListUserView {
            name: self.name@,
            email: self.email@,
        }
    }
}

impl View for ListUser {
    type V = ListUserView;

    open spec fn view(&self) -> ListUserView {
        self.deep_view()
    }
}

impl Clone for ListUser {
    fn clone(&self) -> (r: Self)
        ensures
            r == *self,
    {
        ListUser {
            name: self.name.clone(),
            email: self.email.clone(),
        }
    }
}

/// Form: a new list and the members to invite.
#[derive(Debug)]
pub struct CreateList {
    pub name: String,
    pub users: Vec<ListUser>,
}

pub struct CreateListView {
    pub name: Seq<char>,
    pub users: Seq<ListUserView>,
}

impl DeepView for CreateList {
    type V = CreateListView;

    open spec fn deep_view(&self) -> CreateListView {
        CreateListView {
            name: self.name@,
            users: self.users.deep_view(),
        }
    }
}

impl View for CreateList {
    type V = CreateListView;

    open spec fn view(&self) -> CreateListView {
        self.deep_view()
    }
}

/// Form: a list's new name and its members.
#[derive(Debug)]
pub struct ModifyList {
    pub uuid: String,
    pub name: String,
    pub users: Vec<ListUser>,
}

pub struct ModifyListView {
    pub uuid: Seq<char>,
    pub name: Seq<char>,
    pub users: Seq<ListUserView>,
}

impl DeepView for ModifyList {
    type V = ModifyListView;

    open spec fn deep_view(&self) -> ModifyListView {
        ModifyListView {
            uuid: self.uuid@,
            name: self.name@,
            users: self.users.deep_view(),
        }
    }
}

impl View for ModifyList {
    type V = ModifyListView;

    open spec fn view(&self) -> ModifyListView {
        self.deep_view()
    }
}

/// Form: the list to delete.
#[derive(Debug)]
pub struct DeleteList {
    pub uuid: String,
}

pub struct DeleteListView {
    pub uuid: Seq<char>,
}

impl DeepView for DeleteList {
    type V = DeleteListView;

    open spec fn deep_view(&self) -> DeleteListView {
        DeleteListView {
            uuid: self.uuid@,
        }
    }
}

impl View for DeleteList {
    type V = DeleteListView;

    open spec fn view(&self) -> DeleteListView {
        self.deep_view()
    }
}

/// Form: the gift to claim or to release.
#[derive(Debug)]
pub struct ClaimGift {
    pub gift_uuid: String,
}

pub struct ClaimGiftView {
    pub gift_uuid: Seq<char>,
}

impl DeepView for ClaimGift {
    type V = ClaimGiftView;

    open spec fn deep_view(&self) -> ClaimGiftView {
        ClaimGiftView {
            gift_uuid: self.gift_uuid@,
        }
    }
}

impl View for ClaimGift {
    type V = ClaimGiftView;

    open spec fn view(&self) -> ClaimGiftView {
        self.deep_view()
    }
}

/// One gift of a submitted gift list. `uuid` is a stored identifier, a
/// placeholder for a gift that does not exist yet, or empty;
/// `alternate_to_uuid` likewise names the gift this one stands in for.
#[derive(Debug)]
pub struct FormGift {
    pub uuid: String,
    pub url: String,
    pub comment: String,
    pub alternate_to_uuid: String,
}

pub struct FormGiftView {
    pub uuid: Seq<char>,
    pub url: Seq<char>,
    pub comment: Seq<char>,
    pub alternate_to_uuid: Seq<char>,
}

impl DeepView for FormGift {
    type V = FormGiftView;

    open spec fn deep_view(&self) -> FormGiftView {
        FormGiftView {
            uuid: self.uuid@,
            url: self.url@,
            comment: self.comment@,
            alternate_to_uuid: self.alternate_to_uuid@,
        }
    }
}

impl View for FormGift {
    type V = FormGiftView;

    open spec fn view(&self) -> FormGiftView {
        self.deep_view()
    }
}

impl Clone for FormGift {
    fn clone(&self) -> (r: Self)
        ensures
            r == *self,
    {
        FormGift {
            uuid: self.uuid.clone(),
            url: self.url.clone(),
            comment: self.comment.clone(),
            alternate_to_uuid: self.alternate_to_uuid.clone(),
        }
    }
}

/// Form: a member's complete gift list for one list.
#[derive(Debug)]
pub struct ModifyGiftList {
    pub list_uuid: String,
    pub gifts: Vec<FormGift>,
}

pub struct ModifyGiftListView {
    pub list_uuid: Seq<char>,
    pub gifts: Seq<FormGiftView>,
}

impl DeepView for ModifyGiftList {
    type V = ModifyGiftListView;

    open spec fn deep_view(&self) -> ModifyGiftListView {
        ModifyGiftListView {
            list_uuid: self.list_uuid@,
            gifts: self.gifts.deep_view(),
        }
    }
}

impl View for ModifyGiftList {
    type V = ModifyGiftListView;

    open spec fn view(&self) -> ModifyGiftListView {
        self.deep_view()
    }
}

/// Marks a request that carries a session.
#[derive(Debug)]
pub struct Auth {
    pub user_token: String,
}

pub struct AuthView {
    pub user_token: Seq<char>,
}

impl DeepView for Auth {
    type V = AuthView;

    open spec fn deep_view(&self) -> AuthView {
        AuthView {
            user_token: self.user_token@,
        }
    }
}

impl View for Auth {
    type V = AuthView;

    open spec fn view(&self) -> AuthView {
        self.deep_view()
    }
}

} // verus!
