//! Mailbox credentials.

use crate::text::{chars_of, find_first, first_occurrence, lemma_first_occurrence_unique};
use vstd::prelude::*;
use vstd::string::StrSliceExecFns;

verus! {

/// How a mailbox proves its identity to the server.
#[derive(Debug)]
pub enum AuthorizationMechanism {
    Password { password: String },
    OAuth2 { token: String },
}

impl Clone for AuthorizationMechanism {
    fn clone(&self) -> (copy: Self)
        ensures
            copy == *self,
    {
        match self {
            AuthorizationMechanism::Password { password } => AuthorizationMechanism::Password {
                password: password.clone(),
            },
            AuthorizationMechanism::OAuth2 { token } => AuthorizationMechanism::OAuth2 {
                token: token.clone(),
            },
        }
    }
}

/// Credentials of one account.
#[derive(Debug)]
pub struct Mailbox {
    pub email: String,
    pub auth: AuthorizationMechanism,
}

impl Clone for Mailbox {
    fn clone(&self) -> (copy: Self)
        ensures
            copy == *self,
    {
        Mailbox { email: self.email.clone(), auth: self.auth.clone() }
    }
}

/// The part of an address after its first `@`; `None` where it has no `@`.
pub open spec fn domain_part(email: Seq<char>) -> Option<Seq<char>> {
    if exists|i: int| first_occurrence(email, '@', i) {
        Some(email.skip((choose|i: int| first_occurrence(email, '@', i)) + 1))
    } else {
        None
    }
}

impl Mailbox {
    /// The domain part of the login:
    ///
    /// ```text
    /// someusername@gmail.com
    ///              ^^^^^^^^^
    /// ```
    pub fn get_domain(&self) -> (domain: Option<&str>)
        ensures
            match domain {
                Some(d) => domain_part(self.email@) == Some(d@),
                None => domain_part(self.email@) is None,
            },
    {
        let email = self.email.as_str();
        let chars = chars_of(email);
        let length: usize = chars.len();
        match find_first(&chars, '@') {
            Some(at) => {
                let domain = email.substring_char(at + 1, length);
                proof {
                    let chosen = choose|i: int| first_occurrence(self.email@, '@', i);
                    lemma_first_occurrence_unique(self.email@, '@', at as int, chosen);
                    assert(self.email@.subrange(at + 1, chars@.len() as int) =~= self.email@.skip(
                        at + 1,
                    ));
                }
                Some(domain)
            },
            None => None,
        }
    }
}

} // verus!
