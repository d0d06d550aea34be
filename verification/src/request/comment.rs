//! The requests about the comments of an article.

use vstd::prelude::*;
use crate::article::CommentId;
use crate::request::{Method, Request, comment_path, comments_path, owned, sent_as, with_method};
use crate::slug::Slug;
use crate::viewer::Viewer;

verus! {

/// The data of a new comment: `{"comment": {"body": <text>}}` in JSON.
pub struct NewComment {
    pub body: String,
}

/// Loads the comments of an article: `GET articles/<slug>/comments`.
pub fn load_list(viewer: Option<&Viewer>, slug: &Slug) -> (r: Request<()>)
    ensures
        sent_as(r, "articles/"@ + slug@ + "/comments"@, Method::Get, owned(viewer)),
        r.body is None,
{
    let path = comments_path(slug);
    with_method(path.as_str(), Method::Get, viewer, None)
}

/// Posts a comment: `POST articles/<slug>/comments` with the comment's text.
pub fn create(viewer: Option<&Viewer>, slug: &Slug, text: String) -> (r: Request<NewComment>)
    ensures
        sent_as(r, "articles/"@ + slug@ + "/comments"@, Method::Post, owned(viewer)),
        r.body == Some(NewComment { body: text }),
{
    let path = comments_path(slug);
    with_method(path.as_str(), Method::Post, viewer, Some(NewComment { body: text }))
}

/// Deletes a comment: `DELETE articles/<slug>/comments/<id>`.
pub fn delete(viewer: Option<&Viewer>, slug: &Slug, comment_id: &CommentId) -> (r: Request<()>)
    ensures
        sent_as(
            r,
            "articles/"@ + slug@ + "/comments"@ + "/"@ + comment_id@,
            Method::Delete,
            owned(viewer),
        ),
        r.body is None,
{
    let path = comment_path(slug, comment_id);
    with_method(path.as_str(), Method::Delete, viewer, None)
}

} // verus!
