//! The name of an article in addresses.

use vstd::prelude::*;

verus! {

/// The part of an article's address that names it.
pub struct Slug {
    pub value: String,
}

impl View for Slug {
    type V = Seq<char>;

    open spec fn view(&self) -> Seq<char> {
        self.value@
    }
}

impl Slug {
    /// Makes a slug from its text.
    pub fn new(value: String) -> (r: Slug)
        ensures
            r@ == value@,
            r == (Slug { value: value }),
    {
        Slug { value }
    }

    /// The text of the slug.
    pub fn as_str(&self) -> (r: &str)
        ensures
            r@ == self@,
    {
        self.value.as_str()
    }
}

impl Clone for Slug {
    fn clone(&self) -> (r: Self)
        ensures
            r == *self,
    {
        Slug { value: self.value.clone() }
    }
}

impl From<String> for Slug {
    fn from(value: String) -> (r: Slug) {
        Slug { value }
    }
}

impl vstd::std_specs::convert::FromSpecImpl<String> for Slug {
    open spec fn obeys_from_spec() -> bool {
        true
    }

    open spec fn from_spec(v: String) -> Slug {
        Slug { value: v }
    }
}

} // verus!
