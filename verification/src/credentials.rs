//! What identifies the signed-in user to the server.

use vstd::prelude::*;
use crate::username::Username;

verus! {

/// A user's name and the token the server issued to them.
pub struct Credentials {
    pub username: Username,
    pub auth_token: String,
}

impl Credentials {
    /// The user's name.
    pub fn username(&self) -> (r: &Username)
        ensures
            *r == self.username,
    {
        &self.username
    }
}

impl Clone for Credentials {
    fn clone(&self) -> (r: Self)
        ensures
            r == *self,
    {
        Credentials {
            username: Username { value: self.username.value.clone() },
            auth_token: self.auth_token.clone(),
        }
    }
}

} // verus!
