//! The request that loads a user's profile.

use vstd::prelude::*;
use crate::request::{Method, Request, owned, profile_path, sent_as, with_method};
use crate::username::Username;
use crate::viewer::Viewer;

verus! {

/// Loads a user's profile: `GET profiles/<username>`.
pub fn load(viewer: Option<&Viewer>, username: &Username) -> (r: Request<()>)
    ensures
        sent_as(r, "profiles/"@ + username@, Method::Get, owned(viewer)),
        r.body is None,
{
    let path = profile_path(username);
    with_method(path.as_str(), Method::Get, viewer, None)
}

} // verus!
