//! The picture that stands for a user.

use vstd::prelude::*;

verus! {

/// A user's picture, by its address; `None` where the user has set none.
pub struct Avatar {
    pub url: Option<String>,
}

impl Avatar {
    /// Makes an avatar from an optional address.
    pub fn new(url: Option<String>) -> (r: Avatar)
        ensures
            r.url == url,
    {
        Avatar { url }
    }
}

impl Clone for Avatar {
    fn clone(&self) -> (r: Self)
        ensures
            r == *self,
    {
        match &self.url {
            Some(u) => Avatar { url: Some(u.clone()) },
            None => Avatar { url: None },
        }
    }
}

} // verus!
