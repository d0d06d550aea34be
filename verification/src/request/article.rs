//! The requests about one article: load, create, update and delete.

use vstd::prelude::*;
use crate::request::{Method, Request, article_path, owned, sent_as, with_method};
use crate::slug::Slug;
use crate::viewer::Viewer;

verus! {

/// Loads an article: `GET articles/<slug>`.
pub fn load(viewer: Option<&Viewer>, slug: &Slug) -> (r: Request<()>)
    ensures
        sent_as(r, "articles/"@ + slug@, Method::Get, owned(viewer)),
        r.body is None,
{
    let path = article_path(slug);
    with_method(path.as_str(), Method::Get, viewer, None)
}

/// Loads an article into the editor: `GET articles/<slug>`.
pub fn load_for_editor(viewer: Option<&Viewer>, slug: &Slug) -> (r: Request<()>)
    ensures
        sent_as(r, "articles/"@ + slug@, Method::Get, owned(viewer)),
        r.body is None,
{
    load(viewer, slug)
}

/// Creates an article from a checked form: `POST articles` with the form.
pub fn create<V>(viewer: Option<&Viewer>, valid_form: V) -> (r: Request<V>)
    ensures
        sent_as(r, "articles"@, Method::Post, owned(viewer)),
        r.body == Some(valid_form),
{
    with_method("articles", Method::Post, viewer, Some(valid_form))
}

/// Updates an article from a checked form: `PUT articles/<slug>` with the
/// form.
pub fn update<V>(viewer: Option<&Viewer>, valid_form: V, slug: &Slug) -> (r: Request<V>)
    ensures
        sent_as(r, "articles/"@ + slug@, Method::Put, owned(viewer)),
        r.body == Some(valid_form),
{
    let path = article_path(slug);
    with_method(path.as_str(), Method::Put, viewer, Some(valid_form))
}

/// Deletes an article: `DELETE articles/<slug>`.
pub fn delete(viewer: Option<&Viewer>, slug: &Slug) -> (r: Request<()>)
    ensures
        sent_as(r, "articles/"@ + slug@, Method::Delete, owned(viewer)),
        r.body is None,
{
    let path = article_path(slug);
    with_method(path.as_str(), Method::Delete, viewer, None)
}

} // verus!
