//! The requests about the viewer's settings.

use vstd::prelude::*;
use crate::request::{Method, Request, owned, sent_as, with_method};
use crate::viewer::Viewer;

verus! {

/// Loads the viewer's settings: `GET user`.
pub fn load(viewer: Option<&Viewer>) -> (r: Request<()>)
    ensures
        sent_as(r, "user"@, Method::Get, owned(viewer)),
        r.body is None,
{
    with_method("user", Method::Get, viewer, None)
}

/// Saves the viewer's settings from a checked form: `PUT user` with the
/// form.
pub fn update<V>(viewer: Option<&Viewer>, valid_form: V) -> (r: Request<V>)
    ensures
        sent_as(r, "user"@, Method::Put, owned(viewer)),
        r.body == Some(valid_form),
{
    with_method("user", Method::Put, viewer, Some(valid_form))
}

} // verus!
