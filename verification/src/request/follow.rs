//! The requests that follow a user or stop following them.

use vstd::prelude::*;
use crate::request::{Method, Request, follow_path, owned, sent_as, with_method};
use crate::username::Username;
use crate::viewer::Viewer;

verus! {

/// Follows a user: `POST profiles/<username>/follow`.
pub fn follow(viewer: Option<&Viewer>, username: &Username) -> (r: Request<()>)
    ensures
        sent_as(r, "profiles/"@ + username@ + "/follow"@, Method::Post, owned(viewer)),
        r.body is None,
{
    let path = follow_path(username);
    with_method(path.as_str(), Method::Post, viewer, None)
}

/// Stops following a user: `DELETE profiles/<username>/follow`.
pub fn unfollow(viewer: Option<&Viewer>, username: &Username) -> (r: Request<()>)
    ensures
        sent_as(r, "profiles/"@ + username@ + "/follow"@, Method::Delete, owned(viewer)),
        r.body is None,
{
    let path = follow_path(username);
    with_method(path.as_str(), Method::Delete, viewer, None)
}

} // verus!
