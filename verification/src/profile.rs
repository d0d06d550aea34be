//! What a user tells about themselves.

use vstd::prelude::*;
use crate::avatar::Avatar;

verus! {

/// A user's biography and picture.
pub struct Profile {
    pub bio: Option<String>,
    pub avatar: Avatar,
}

impl Clone for Profile {
    fn clone(&self) -> (r: Self)
        ensures
            r == *self,
    {
        let bio = match &self.bio {
            Some(b) => Some(b.clone()),
            None => None,
        };
        Profile { bio, avatar: self.avatar.clone() }
    }
}

} // verus!
