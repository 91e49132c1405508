//! What the forms of the site do with the store: who the request acts for,
//! what is changed, and what the user is told.

use crate::claim::{claim, claim_in, unclaim, unclaim_in};
use crate::data::{Auth, ClaimGift, DeleteList, ModifyGiftList, ModifyGiftListView, User, UserView};
use crate::db::DbConn;
use crate::failure::{outcome, text_outcome, Failure, FailureView};
use crate::reconcile::{mint_ids, minted_for, reconcile_of, reconcile_with};
use crate::tables::{user_record, Tables};
use vstd::prelude::*;
use vstd::string::StringExecFns;

verus! {

/// How a browser is to treat the session cookie on requests from other
/// sites.
#[derive(Debug)]
pub enum CookiePolicy {
    Lax,
    Strict,
}

/// The cookie that carries a session: its value is the identifier of the
/// user who logged in. It is to be stored so that the browser cannot read
/// or forge it.
pub struct SessionCookie {
    pub name: String,
    pub value: String,
    pub policy: CookiePolicy,
}

/// The handlers of the site.
pub struct WebServer;

/// The name of the session cookie.
pub open spec fn user_cookie() -> Seq<char> {
    "userToken"@
}

/// What is said of a request without a session cookie.
pub open spec fn no_cookie_message() -> Seq<char> {
    "No cookie retrieved"@
}

/// The user that a request with the session cookie `cookie` acts for.
pub open spec fn current_user_of(t: Tables, cookie: Option<Seq<char>>) -> Result<UserView, FailureView> {
    match cookie {
        None => Err(FailureView::Unauthenticated),
        Some(uuid) => match t.user_by_uuid(uuid) {
            Some(u) => Ok(user_record(u, uuid)),
            None => Err(FailureView::NotFound),
        },
    }
}

/// What the user is told of a claim. A claim that fails for want of a
/// gift, or of the claimer's record, is no answer but a failure.
pub open spec fn claim_message(r: Result<(), FailureView>) -> Result<Seq<char>, FailureView> {
    match r {
        Ok(()) => Ok("Claimed!"@),
        Err(FailureView::SelfClaimForbidden) => Ok("You can't claim your own gifts :|"@),
        Err(FailureView::AlreadyClaimed(Some(u))) => Ok("Item already claimed by "@ + u.name),
        Err(e) => Err(e),
    }
}

/// What the user is told of a release.
pub open spec fn unclaim_message(r: Result<(), FailureView>) -> Result<Seq<char>, FailureView> {
    match r {
        Ok(()) => Ok("Unclaimed!"@),
        Err(FailureView::SelfClaimForbidden) => Ok("You can't unclaim your own gifts :|"@),
        Err(FailureView::NotClaimed) => Ok("Item isn't claimed"@),
        Err(FailureView::ClaimedByOther(Some(u))) => Ok("Item claimed by "@ + u.name),
        Err(e) => Err(e),
    }
}

/// What the user is told of a submitted gift list.
pub open spec fn reconcile_message(r: Result<(), FailureView>) -> Result<Seq<char>, FailureView> {
    match r {
        Ok(()) => Ok("Success!"@),
        Err(FailureView::Unauthorized) => Ok("Unauthorized"@),
        Err(FailureView::Forbidden) => Ok("Can't modify item you don't own"@),
        Err(e) => Err(e),
    }
}

/// What a request to claim the gift `gift_uuid` gives: the answer and the
/// store afterwards.
pub open spec fn claim_gift_of(t: Tables, gift_uuid: Seq<char>, cookie: Option<Seq<char>>) -> (
    Result<Seq<char>, FailureView>,
    Tables,
) {
    match current_user_of(t, cookie) {
        Err(e) => (Err(e), t),
        Ok(user) => (claim_message(claim_in(t, gift_uuid, user).0), claim_in(t, gift_uuid, user).1),
    }
}

/// What a request to release the gift `gift_uuid` gives.
pub open spec fn unclaim_gift_of(t: Tables, gift_uuid: Seq<char>, cookie: Option<Seq<char>>) -> (
    Result<Seq<char>, FailureView>,
    Tables,
) {
    match current_user_of(t, cookie) {
        Err(e) => (Err(e), t),
        Ok(user) => (
            unclaim_message(unclaim_in(t, gift_uuid, user).0),
            unclaim_in(t, gift_uuid, user).1,
        ),
    }
}

/// What a request to delete the list `list_uuid` gives: only its owner
/// deletes it.
pub open spec fn delete_list_of(t: Tables, list_uuid: Seq<char>, cookie: Option<Seq<char>>) -> (
    Result<Seq<char>, FailureView>,
    Tables,
) {
    match current_user_of(t, cookie) {
        Err(e) => (Err(e), t),
        Ok(user) => match t.list_by_uuid(list_uuid) {
            None => (Err(FailureView::NotFound), t),
            Some(l) => if l.owner == user.uuid {
                (Ok("Success!"@), t.without_list(list_uuid))
            } else {
                (Ok("Can't delete list you don't own"@), t)
            },
        },
    }
}

/// What a request that submits a gift list gives, where `minted` holds the
/// fresh identifiers at hand.
pub open spec fn modify_gift_list_of(
    t: Tables,
    form: ModifyGiftListView,
    cookie: Option<Seq<char>>,
    minted: Seq<Seq<char>>,
) -> (Result<Seq<char>, FailureView>, Tables) {
    match current_user_of(t, cookie) {
        Err(e) => (Err(e), t),
        Ok(user) => (
            reconcile_message(reconcile_of(t, form.list_uuid, user.uuid, form.gifts, minted).0),
            reconcile_of(t, form.list_uuid, user.uuid, form.gifts, minted).1,
        ),
    }
}

/// What the login link with the token `token` gives: the cookie to set, if
/// the token is some user's, and where to send the browser.
pub struct Login {
    pub cookie: Option<SessionCookie>,
    pub redirect: String,
}

fn reconcile_answer(r: Result<(), Failure>) -> (answer: Result<String, Failure>)
    ensures
        text_outcome(answer) == reconcile_message(outcome(r)),
{
    match r {
        Ok(()) => Ok(text("Success!")),
        Err(Failure::Unauthorized) => Ok(text("Unauthorized")),
        Err(Failure::Forbidden) => Ok(text("Can't modify item you don't own")),
        Err(e) => Err(e),
    }
}

/// The text as a string of its own.
pub(crate) fn text(s: &'static str) -> (r: String)
    ensures
        r@ == s@,
{
    String::from_str(s)
}

impl WebServer {
    /// The name of the session cookie.
    pub fn user_cookie_name() -> (name: String)
        ensures
            name@ == user_cookie(),
    {
        text("userToken")
    }

    /// The cookie that logs the user `user_uuid` in.
    pub fn set_user_cookie(user_uuid: String) -> (cookie: SessionCookie)
        ensures
            cookie.name@ == user_cookie(),
            cookie.value@ == user_uuid@,
            cookie.policy is Lax,
    {
        SessionCookie {
            name: WebServer::user_cookie_name(),
            value: user_uuid,
            policy: CookiePolicy::Lax,
        }
    }

    /// The user identifier that the session cookie holds; `cookie` is the
    /// cookie's value where the request carries one.
    pub fn get_user_cookie(cookie: Option<String>) -> (r: Result<String, String>)
        ensures
            match r {
                Ok(uuid) => cookie matches Some(c) && uuid@ == c@,
                Err(message) => cookie is None && message@ == no_cookie_message(),
            },
    {
        match cookie {
            Some(c) => Ok(c),
            None => Err(text("No cookie retrieved")),
        }
    }

    /// Lets a request pass that carries a session cookie, whatever the
    /// cookie holds.
    pub fn auth(cookie: &Option<String>) -> (r: Option<Auth>)
        ensures
            match r {
                Some(a) => cookie is Some && a.user_token@.len() == 0,
                None => cookie is None,
            },
    {
        match cookie {
            Some(_) => Some(Auth { user_token: String::new() }),
            None => None,
        }
    }

    /// The user that the request acts for.
    pub fn get_current_user(cookie: Option<String>, conn: &DbConn) -> (r: Result<User, Failure>)
        ensures
            match r {
                Ok(user) => current_user_of(conn@, cookie.deep_view()) == Ok::<UserView, FailureView>(
                    user@,
                ),
                Err(e) => current_user_of(conn@, cookie.deep_view()) == Err::<UserView, FailureView>(
                    e@,
                ),
            },
    {
        match WebServer::get_user_cookie(cookie) {
            Ok(uuid) => match conn.user_from_uuid(uuid.clone(), uuid) {
                Ok(user) => Ok(user),
                Err(_) => Err(Failure::NotFound),
            },
            Err(_) => Err(Failure::Unauthenticated),
        }
    }

    /// Claims a gift for the user of the request and says how it went.
    pub fn claim_gift(claim_form: &ClaimGift, cookie: Option<String>, conn: &mut DbConn) -> (r: Result<
        String,
        Failure,
    >)
        ensures
            (text_outcome(r), final(conn)@) == claim_gift_of(
                old(conn)@,
                claim_form@.gift_uuid,
                cookie.deep_view(),
            ),
            old(conn)@.wf() ==> final(conn)@.wf(),
            old(conn)@.claims_consistent() ==> final(conn)@.claims_consistent(),
    {
        let current_user = match WebServer::get_current_user(cookie, conn) {
            Ok(u) => u,
            Err(e) => {
                return Err(e);
            },
        };
        match claim(conn, claim_form.gift_uuid.clone(), current_user) {
            Ok(()) => Ok(text("Claimed!")),
            Err(Failure::SelfClaimForbidden) => Ok(text("You can't claim your own gifts :|")),
            Err(Failure::AlreadyClaimed(Some(u))) => Ok(
                text("Item already claimed by ").concat(u.name.as_str()),
            ),
            Err(e) => Err(e),
        }
    }

    /// Releases a gift for the user of the request and says how it went.
    pub fn unclaim_gift(claim_form: &ClaimGift, cookie: Option<String>, conn: &mut DbConn) -> (r: Result<
        String,
        Failure,
    >)
        ensures
            (text_outcome(r), final(conn)@) == unclaim_gift_of(
                old(conn)@,
                claim_form@.gift_uuid,
                cookie.deep_view(),
            ),
            old(conn)@.wf() ==> final(conn)@.wf(),
            old(conn)@.claims_consistent() ==> final(conn)@.claims_consistent(),
    {
        let current_user = match WebServer::get_current_user(cookie, conn) {
            Ok(u) => u,
            Err(e) => {
                return Err(e);
            },
        };
        match unclaim(conn, claim_form.gift_uuid.clone(), current_user) {
            Ok(()) => Ok(text("Unclaimed!")),
            Err(Failure::SelfClaimForbidden) => Ok(text("You can't unclaim your own gifts :|")),
            Err(Failure::NotClaimed) => Ok(text("Item isn't claimed")),
            Err(Failure::ClaimedByOther(Some(u))) => Ok(
                text("Item claimed by ").concat(u.name.as_str()),
            ),
            Err(e) => Err(e),
        }
    }

    /// Deletes a list for its owner.
    pub fn delete_list(list: &DeleteList, cookie: Option<String>, conn: &mut DbConn) -> (r: Result<
        String,
        Failure,
    >)
        ensures
            (text_outcome(r), final(conn)@) == delete_list_of(
                old(conn)@,
                list@.uuid,
                cookie.deep_view(),
            ),
            old(conn)@.wf() ==> final(conn)@.wf(),
    {
        let current_user = match WebServer::get_current_user(cookie, conn) {
            Ok(u) => u,
            Err(e) => {
                return Err(e);
            },
        };
        let list_data = match conn.list_from_uuid(list.uuid.clone(), current_user.uuid) {
            Ok(l) => l,
            Err(e) => {
                return Err(Failure::NotFound);
            },
        };
        if !list_data.im_owner {
            return Ok(text("Can't delete list you don't own"));
        }
        conn.delete_list(list.uuid.clone());
        Ok(text("Success!"))
    }

    /// Replaces the gift list of the user of the request by the submitted
    /// one, storing the new gift `gifts.gifts[i]` under `minted[i]`.
    pub fn modify_gift_list_with(
        gifts: &ModifyGiftList,
        cookie: Option<String>,
        conn: &mut DbConn,
        minted: &Vec<String>,
    ) -> (r: Result<String, Failure>)
        requires
            minted@.len() == gifts.gifts@.len(),
        ensures
            (text_outcome(r), final(conn)@) == modify_gift_list_of(
                old(conn)@,
                gifts@,
                cookie.deep_view(),
                minted.deep_view(),
            ),
            old(conn)@.wf() ==> final(conn)@.wf(),
            old(conn)@.claims_consistent() ==> final(conn)@.claims_consistent(),
    {
        let current_user = match WebServer::get_current_user(cookie, conn) {
            Ok(u) => u,
            Err(e) => {
                return Err(e);
            },
        };
        reconcile_answer(reconcile_with(conn, &gifts.list_uuid, &current_user.uuid, &gifts.gifts, minted))
    }

    /// Replaces the gift list of the user of the request by the submitted
    /// one. The identifiers of the new gifts are drawn at random.
    pub fn modify_gift_list(gifts: &ModifyGiftList, cookie: Option<String>, conn: &mut DbConn) -> (r: Result<
        String,
        Failure,
    >)
        ensures
            exists|minted: Seq<Seq<char>>|
                minted_for(gifts@.gifts, minted) && #[trigger] modify_gift_list_of(
                    old(conn)@,
                    gifts@,
                    cookie.deep_view(),
                    minted,
                ) == (text_outcome(r), final(conn)@),
            old(conn)@.wf() ==> final(conn)@.wf(),
            old(conn)@.claims_consistent() ==> final(conn)@.claims_consistent(),
    {
        let minted = mint_ids(&gifts.gifts);
        let r = WebServer::modify_gift_list_with(gifts, cookie, conn, &minted);
        assert(modify_gift_list_of(old(conn)@, gifts@, cookie.deep_view(), minted.deep_view()) == (
            text_outcome(r),
            conn@,
        ));
        r
    }

    /// Answers the login link: a known token logs its user in.
    pub fn login(user_token: String, conn: &DbConn) -> (r: Login)
        ensures
            match conn@.user_by_token(user_token@) {
                Some(u) => r.redirect@ == "/user"@ && (r.cookie matches Some(c) && c.name@
                    == user_cookie() && c.value@ == u.user_uuid && c.policy is Lax),
                None => r.redirect@ == "/"@ && r.cookie is None,
            },
    {
        match conn.user_uuid_from_auth_token(user_token) {
            Ok(uuid) => Login { cookie: Some(WebServer::set_user_cookie(uuid)), redirect: text("/user") },
            Err(_) => Login { cookie: None, redirect: text("/") },
        }
    }
}

} // verus!
