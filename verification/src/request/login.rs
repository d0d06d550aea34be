//! The request that signs in.

use vstd::prelude::*;
use crate::request::{Method, Request, sent_as, with_method};
use crate::viewer::Viewer;

verus! {

/// Signs in with a checked form: `POST users/login` with the form and no
/// token.
pub fn login<V>(valid_form: V) -> (r: Request<V>)
    ensures
        sent_as(r, "users/login"@, Method::Post, None::<Viewer>),
        r.body == Some(valid_form),
{
    with_method("users/login", Method::Post, None, Some(valid_form))
}

} // verus!
