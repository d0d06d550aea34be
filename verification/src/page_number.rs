//! The number of a page of a feed, counted from one.

use vstd::prelude::*;

verus! {

/// A page number; never zero.
#[derive(Clone, Copy)]
pub struct PageNumber {
    value: usize,
}

impl PageNumber {
    #[verifier::type_invariant]
    spec fn is_positive(self) -> bool {
        self.value >= 1
    }

    /// The number.
    pub closed spec fn spec_value(self) -> nat {
        self.value as nat
    }

    /// The page numbered `n`, where `n` is not zero.
    pub fn new(n: usize) -> (r: Option<PageNumber>)
        ensures
            n == 0 ==> r is None,
            n > 0 ==> (r matches Some(p) && p.spec_value() == n),
    {
        if n == 0 {
            None
        } else {
            Some(PageNumber { value: n })
        }
    }

    /// The number.
    pub fn to_usize(&self) -> (r: usize)
        ensures
            r == self.spec_value(),
            r >= 1,
    {
        proof {
            use_type_invariant(self);
        }
        self.value
    }
}

impl Default for PageNumber {
    /// The first page.
    fn default() -> (r: Self)
        ensures
            r.spec_value() == 1,
    {
        PageNumber { value: 1 }
    }
}

} // verus!
