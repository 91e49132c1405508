use giftlist::email::{Email, EmailConfig};

fn config(root: &str) -> EmailConfig {
    EmailConfig {
        access_key: "key".to_string(),
        secret_key: "SECRET-REDACTED".to_string(),
        email_endpoint: "smtp.example.com".to_string(),
        email_from: "Wishlist <lists@example.com>".to_string(),
        admin_email: "admin@example.com".to_string(),
        website_root: root.to_string(),
    }
}

#[test]
fn login_link_after_a_root_that_ends_in_a_slash() {
    let email = Email::build(config("https://lists.example.com/"));
    assert_eq!(email.login_link(&"abc123".to_string()), "https://lists.example.com/login/abc123");
}

#[test]
fn login_link_after_a_root_without_a_slash() {
    let email = Email::build(config("https://lists.example.com"));
    assert_eq!(email.login_link(&"abc123".to_string()), "https://lists.example.com/login/abc123");
}

#[test]
fn login_link_after_an_empty_root() {
    let email = Email::build(config(""));
    assert_eq!(email.login_link(&"abc123".to_string()), "/login/abc123");
}

#[test]
fn build_keeps_the_settings() {
    let email = Email::build(config("https://lists.example.com/"));
    assert_eq!(email.endpoint(), "smtp.example.com");
    assert_eq!(email.credentials(), ("key".to_string(), "SECRET-REDACTED".to_string()));
}

#[test]
fn invitation_names_list_member_and_link() {
    let email = Email::build(config("https://lists.example.com/"));
    let message = email.compose_invite(
        "Birthday".to_string(),
        "abc123".to_string(),
        "Bea".to_string(),
        "bea@example.com".to_string(),
    );
    assert_eq!(message.from, "Wishlist <lists@example.com>");
    assert_eq!(message.to, "Bea <bea@example.com>");
    assert_eq!(message.subject, "You've been invited to the Birthday wishlist!");
    assert_eq!(message.body.user_name, "Bea");
    assert_eq!(message.body.list_name, "Birthday");
    assert_eq!(message.body.link, "https://lists.example.com/login/abc123");
    assert_eq!(message.body.admin_email, "admin@example.com");
}
