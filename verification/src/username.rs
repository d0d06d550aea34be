//! The name of a user, as the server spells it.

use vstd::prelude::*;

verus! {

/// A user's name.
pub struct Username {
    pub value: String,
}

impl View for Username {
    type V = Seq<char>;

    open spec fn view(&self) -> Seq<char> {
        self.value@
    }
}

impl Username {
    /// Makes a name from its text.
    pub fn new(username: String) -> (r: Username)
        ensures
            r@ == username@,
            r == (Username { value: username }),
    {
        Username { value: username }
    }

    /// The text of the name.
    pub fn as_str(&self) -> (r: &str)
        ensures
            r@ == self@,
    {
        self.value.as_str()
    }

    /// Whether two names are spelled alike.
    pub fn same_as(&self, other: &Username) -> (r: bool)
        ensures
            r == (self@ == other@),
    {
        self.value == other.value
    }
}

impl Clone for Username {
    fn clone(&self) -> (r: Self)
        ensures
            r == *self,
    {
        Username { value: self.value.clone() }
    }
}

impl From<String> for Username {
    fn from(value: String) -> (r: Username) {
        Username { value }
    }
}

impl vstd::std_specs::convert::FromSpecImpl<String> for Username {
    open spec fn obeys_from_spec() -> bool {
        true
    }

    open spec fn from_spec(v: String) -> Username {
        Username { value: v }
    }
}

} // verus!
