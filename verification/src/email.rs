//! Invitations: what is sent to a member who is added to a list.

use crate::data::{InviteEmail, InviteEmailView};
use vstd::prelude::*;
use vstd::string::StringExecFns;

verus! {

/// The settings of the mail component, as its configuration gives them.
pub struct EmailConfig {
    pub access_key: String,
    pub secret_key: String,
    pub email_endpoint: String,
    pub email_from: String,
    pub admin_email: String,
    pub website_root: String,
}

/// The mail component: the relay it sends through, the credentials for it,
/// and what the invitations say of the site.
pub struct Email {
    access_key: String,
    secret_key: String,
    email_endpoint: String,
    email_from: String,
    admin_email: String,
    website_root: String,
}

pub struct EmailView {
    pub access_key: Seq<char>,
    pub secret_key: Seq<char>,
    pub email_endpoint: Seq<char>,
    pub email_from: Seq<char>,
    pub admin_email: Seq<char>,
    pub website_root: Seq<char>,
}

impl View for Email {
    type V = EmailView;

    closed spec fn view(&self) -> EmailView {
        EmailView {
            access_key: self.access_key@,
            secret_key: self.secret_key@,
            email_endpoint: self.email_endpoint@,
            email_from: self.email_from@,
            admin_email: self.admin_email@,
            website_root: self.website_root@,
        }
    }
}

/// An invitation, ready to be sent: sender, recipient, subject, and what
/// the template of the body is filled with.
#[derive(Debug)]
pub struct InviteMessage {
    pub from: String,
    pub to: String,
    pub subject: String,
    pub body: InviteEmail,
}

/// The link that logs the bearer of `token` in: the site's root, a slash
/// unless the root ends in one, then `login/` and the token.
pub open spec fn login_link_of(root: Seq<char>, token: Seq<char>) -> Seq<char> {
    if root.len() > 0 && root.last() == '/' {
        root + "login/"@ + token
    } else {
        root + "/login/"@ + token
    }
}

/// The recipient as a mailbox: the name, then the address in angle
/// brackets.
pub open spec fn mailbox_of(name: Seq<char>, address: Seq<char>) -> Seq<char> {
    name + " <"@ + address + ">"@
}

/// The subject of the invitation to the list `list_name`.
pub open spec fn subject_of(list_name: Seq<char>) -> Seq<char> {
    "You've been invited to the "@ + list_name + " wishlist!"@
}

impl Email {
    /// The mail component with the settings of `config`.
    pub fn build(config: EmailConfig) -> (email: Email)
        ensures
            email@ == (EmailView {
                access_key: config.access_key@,
                secret_key: config.secret_key@,
                email_endpoint: config.email_endpoint@,
                email_from: config.email_from@,
                admin_email: config.admin_email@,
                website_root: config.website_root@,
            }),
    {
        Email {
            access_key: config.access_key,
            secret_key: config.secret_key,
            email_endpoint: config.email_endpoint,
            email_from: config.email_from,
            admin_email: config.admin_email,
            website_root: config.website_root,
        }
    }

    /// The relay to send through.
    pub fn endpoint(&self) -> (r: String)
        ensures
            r@ == self@.email_endpoint,
    {
        self.email_endpoint.clone()
    }

    /// The credentials for the relay: the access key, then the secret key.
    pub fn credentials(&self) -> (r: (String, String))
        ensures
            r.0@ == self@.access_key,
            r.1@ == self@.secret_key,
    {
        (self.access_key.clone(), self.secret_key.clone())
    }

    /// The link that logs the bearer of `token` in.
    pub fn login_link(&self, token: &String) -> (link: String)
        ensures
            link@ == login_link_of(self@.website_root, token@),
    {
        let root = self.website_root.as_str();
        let n = root.unicode_len();
        let joined = if n > 0 && root.get_char(n - 1) == '/' {
            self.website_root.clone().concat("login/")
        } else {
            self.website_root.clone().concat("/login/")
        };
        joined.concat(token.as_str())
    }

    /// The invitation of `user_name` to the list `list_name`, with the link
    /// that logs them in.
    pub fn compose_invite(
        &self,
        list_name: String,
        user_auth_token: String,
        user_name: String,
        user_email: String,
    ) -> (message: InviteMessage)
        ensures
            message.from@ == self@.email_from,
            message.to@ == mailbox_of(user_name@, user_email@),
            message.subject@ == subject_of(list_name@),
            message.body@ == (InviteEmailView {
                user_name: user_name@,
                list_name: list_name@,
                link: login_link_of(self@.website_root, user_auth_token@),
                admin_email: self@.admin_email,
            }),
    {
        let to = user_name.clone().concat(" <").concat(user_email.as_str()).concat(">");
        let subject = String::from_str("You've been invited to the ").concat(
            list_name.as_str(),
        ).concat(" wishlist!");
        let link = self.login_link(&user_auth_token);
        InviteMessage {
            from: self.email_from.clone(),
            to,
            subject,
            body: InviteEmail { user_name, list_name, link, admin_email: self.admin_email.clone() },
        }
    }
}

} // verus!
