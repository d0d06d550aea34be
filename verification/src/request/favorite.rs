//! The requests that mark an article as a favorite or take the mark away.

use vstd::prelude::*;
use crate::request::{Method, Request, favorite_path, owned, sent_as, with_method};
use crate::slug::Slug;
use crate::viewer::Viewer;

verus! {

/// Marks an article as a favorite: `POST articles/<slug>/favorite`.
pub fn favorite(viewer: Option<&Viewer>, slug: &Slug) -> (r: Request<()>)
    ensures
        sent_as(r, "articles/"@ + slug@ + "/favorite"@, Method::Post, owned(viewer)),
        r.body is None,
{
    let path = favorite_path(slug);
    with_method(path.as_str(), Method::Post, viewer, None)
}

/// Takes the favorite mark away: `DELETE articles/<slug>/favorite`.
pub fn unfavorite(viewer: Option<&Viewer>, slug: &Slug) -> (r: Request<()>)
    ensures
        sent_as(r, "articles/"@ + slug@ + "/favorite"@, Method::Delete, owned(viewer)),
        r.body is None,
{
    let path = favorite_path(slug);
    with_method(path.as_str(), Method::Delete, viewer, None)
}

} // verus!
