//! Articles, their comments and tags.

use vstd::prelude::*;
use crate::author::Author;
use crate::slug::Slug;

verus! {

/// A point in time, as the server writes it.
pub struct Timestamp {
    pub value: String,
}

/// A tag of an article.
pub struct Tag {
    pub value: String,
}

impl View for Tag {
    type V = Seq<char>;

    open spec fn view(&self) -> Seq<char> {
        self.value@
    }
}

impl Tag {
    /// Makes a tag from its text.
    pub fn new(value: String) -> (r: Tag)
        ensures
            r@ == value@,
    {
        Tag { value }
    }

    /// The text of the tag, as it is shown.
    pub fn to_string(&self) -> (r: String)
        ensures
            r@ == self@,
    {
        self.value.clone()
    }
}

impl Clone for Tag {
    fn clone(&self) -> (r: Self)
        ensures
            r == *self,
    {
        Tag { value: self.value.clone() }
    }
}

/// The tags that a list of texts names, in order.
pub fn into_tags(tags: Vec<String>) -> (r: Vec<Tag>)
    ensures
        r@.len() == tags@.len(),
        forall|i: int| 0 <= i < tags@.len() ==> #[trigger] r@[i] == (Tag { value: tags@[i] }),
{
    let mut r: Vec<Tag> = Vec::new();
    let mut i: usize = 0;
    while i < tags.len()
        invariant
            i <= tags.len(),
            r@.len() == i,
            forall|j: int| 0 <= j < i ==> #[trigger] r@[j] == (Tag { value: tags@[j] }),
        decreases tags.len() - i,
    {
        r.push(Tag { value: tags[i].clone() });
        i = i + 1;
    }
    r
}

/// The identifier of a comment.
pub struct CommentId {
    pub value: String,
}

impl View for CommentId {
    type V = Seq<char>;

    open spec fn view(&self) -> Seq<char> {
        self.value@
    }
}

impl CommentId {
    /// The text of the identifier.
    pub fn as_str(&self) -> (r: &str)
        ensures
            r@ == self@,
    {
        self.value.as_str()
    }

    /// Whether two identifiers are alike.
    pub fn same_as(&self, other: &CommentId) -> (r: bool)
        ensures
            r == (self@ == other@),
    {
        self.value == other.value
    }
}

impl Clone for CommentId {
    fn clone(&self) -> (r: Self)
        ensures
            r == *self,
    {
        CommentId { value: self.value.clone() }
    }
}

/// An article.
pub struct Article {
    pub title: String,
    pub slug: Slug,
    pub body: String,
    pub created_at: Timestamp,
    pub updated_at: Timestamp,
    pub tag_list: Vec<Tag>,
    pub description: String,
    pub author: Author,
    pub favorited: bool,
    pub favorites_count: usize,
}

/// A comment on an article.
pub struct Comment {
    pub id: CommentId,
    pub body: String,
    pub created_at: Timestamp,
    pub updated_at: Timestamp,
    pub author: Author,
}

} // verus!
