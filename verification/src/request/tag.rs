//! The request that loads the popular tags.

use vstd::prelude::*;
use crate::request::{Method, Request, sent_as, with_method};
use crate::viewer::Viewer;

verus! {

/// Loads the popular tags: `GET tags`, without a token.
pub fn load_list() -> (r: Request<()>)
    ensures
        sent_as(r, "tags"@, Method::Get, None::<Viewer>),
        r.body is None,
{
    with_method("tags", Method::Get, None, None)
}

} // verus!
