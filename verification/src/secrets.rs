//! The token that a client authorises itself with.

use vstd::prelude::*;
use vstd::string::StringExecFns;

verus! {

/// A token: the value of the authorization header. It is kept out of the
/// type's `Debug` output by being the only field of a type that has none.
#[derive(Clone)]
pub struct Token {
    secret: String,
}

impl Token {
    /// The text of the token.
    pub closed spec fn text(self) -> Seq<char> {
        self.secret@
    }

    /// Wraps the value of the authorization header.
    pub fn new(secret: &str) -> (t: Self)
        ensures
            t.text() == secret@,
    {
        Token { secret: String::from_str(secret) }
    }

    /// Gives the value of the authorization header.
    pub fn expose_secret(&self) -> (s: &str)
        ensures
            s@ == self.text(),
    {
        self.secret.as_str()
    }
}

} // verus!
