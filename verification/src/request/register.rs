//! The request that signs up.

use vstd::prelude::*;
use crate::request::{Method, Request, sent_as, with_method};
use crate::viewer::Viewer;

verus! {

/// Signs up with a checked form: `POST users` with the form and no token.
pub fn register<V>(valid_form: V) -> (r: Request<V>)
    ensures
        sent_as(r, "users"@, Method::Post, None::<Viewer>),
        r.body == Some(valid_form),
{
    with_method("users", Method::Post, None, Some(valid_form))
}

} // verus!
