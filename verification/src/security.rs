//! Credentials for authenticated delivery: a username/password pair bound
//! to a queue at construction time and checked on authenticated receive.

use vstd::prelude::*;

verus! {

/// A credential pair. The queue built with an encryption capability holds
/// one and releases messages only to a caller presenting the same pair.
#[derive(Debug)]
pub struct Security {
    username: String,
    password: String,
}

impl Security {
    /// The username of the credential.
    pub closed spec fn spec_username(&self) -> Seq<char> {
        self.username@
    }

    /// The password of the credential.
    pub closed spec fn spec_password(&self) -> Seq<char> {
        self.password@
    }

    /// Creates a credential from a username and a password.
    pub fn new(username: &str, password: &str) -> (s: Security)
        ensures
            s.spec_username() == username@,
            s.spec_password() == password@,
    {
        Security { username: username.to_owned(), password: password.to_owned() }
    }

    /// Checks a presented pair against this credential.
    pub fn check(&self, username: &str, password: &str) -> (b: bool)
        ensures
            b == (self.spec_username() == username@ && self.spec_password() == password@),
    {
        let u = username.to_owned();
        let p = password.to_owned();
        self.username == u && self.password == p
    }
}

impl Clone for Security {
    /// A clone carries the same pair.
    fn clone(&self) -> (s: Self)
        ensures
            s == *self,
    {
        Security { username: self.username.clone(), password: self.password.clone() }
    }
}

} // verus!
