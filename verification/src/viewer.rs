//! The signed-in user.

use vstd::prelude::*;
use crate::avatar::Avatar;
use crate::credentials::Credentials;
use crate::username::Username;

verus! {

/// The signed-in user: their picture and their credentials.
pub struct Viewer {
    avatar: Avatar,
    credentials: Credentials,
}

impl Viewer {
    /// The viewer's picture.
    pub closed spec fn spec_avatar(&self) -> Avatar {
        self.avatar
    }

    /// The viewer's credentials.
    pub closed spec fn spec_credentials(&self) -> Credentials {
        self.credentials
    }

    /// Makes a viewer from a picture and credentials.
    pub fn new(avatar: Avatar, credentials: Credentials) -> (r: Viewer)
        ensures
            r.spec_avatar() == avatar,
            r.spec_credentials() == credentials,
    {
        Viewer { avatar, credentials }
    }

    /// The viewer's name.
    pub fn username(&self) -> (r: &Username)
        ensures
            *r == self.spec_credentials().username,
    {
        self.credentials.username()
    }

    /// The viewer's picture.
    pub fn avatar(&self) -> (r: &Avatar)
        ensures
            *r == self.spec_avatar(),
    {
        &self.avatar
    }

    /// The viewer's credentials.
    pub fn credentials(&self) -> (r: &Credentials)
        ensures
            *r == self.spec_credentials(),
    {
        &self.credentials
    }
}

impl Clone for Viewer {
    fn clone(&self) -> (r: Self)
        ensures
            r == *self,
    {
        Viewer { avatar: self.avatar.clone(), credentials: self.credentials.clone() }
    }
}

} // verus!
