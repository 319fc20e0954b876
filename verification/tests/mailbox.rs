use mail_reader::{AuthorizationMechanism, Mailbox};

fn mailbox(email: &str) -> Mailbox {
    Mailbox {
        email: email.to_string(),
        auth: AuthorizationMechanism::Password { password: "secret".to_string() },
    }
}

#[test]
fn domain_is_what_follows_the_first_at() {
    assert_eq!(mailbox("someusername@gmail.com").get_domain(), Some("gmail.com"));
    assert_eq!(mailbox("a@b@c").get_domain(), Some("b@c"));
    assert_eq!(mailbox("trailing@").get_domain(), Some(""));
}

#[test]
fn no_at_means_no_domain() {
    assert_eq!(mailbox("someusername").get_domain(), None);
    assert_eq!(mailbox("").get_domain(), None);
}
