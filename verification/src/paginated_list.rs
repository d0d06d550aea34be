//! One page of a longer list, with what is needed to page through it.

use vstd::prelude::*;

verus! {

/// The items of one page, how many items a page holds, and how many items
/// there are in all.
pub struct PaginatedList<T> {
    pub values: Vec<T>,
    pub per_page: usize,
    pub total: usize,
}

/// `x / y` rounded up, through `num_integer::div_ceil`.
///
/// For unsigned integers `num_integer` computes `x / y + (x % y != 0)`; it
/// panics when `y` is zero, which `requires` leaves out.
#[verifier::external_body]
fn div_ceil(x: usize, y: usize) -> (r: usize)
    requires
        y > 0,
    ensures
        r == x / y + if x % y == 0 { 0int } else { 1int },
{
    num_integer::div_ceil(x, y)
}

impl<T> PaginatedList<T> {
    /// How many pages it takes to show all items: the fewest pages of
    /// `per_page` items that hold `total` items.
    pub fn total_pages(&self) -> (r: usize)
        requires
            self.per_page > 0,
        ensures
            r * self.per_page >= self.total,
            r == 0 || (r - 1) * self.per_page < self.total,
    {
        let r = div_ceil(self.total, self.per_page);
        proof {
            let t = self.total as int;
            let p = self.per_page as int;
            assert(t == p * (t / p) + t % p) by (nonlinear_arith)
                requires p > 0;
            assert(0 <= t % p < p) by (nonlinear_arith)
                requires p > 0;
            assert(r * p >= t) by (nonlinear_arith)
                requires
                    t == p * (t / p) + t % p,
                    0 <= t % p < p,
                    r == t / p + if t % p == 0 { 0int } else { 1int };
            assert(r == 0 || (r - 1) * p < t) by (nonlinear_arith)
                requires
                    t == p * (t / p) + t % p,
                    0 <= t % p < p,
                    r == t / p + if t % p == 0 { 0int } else { 1int };
        }
        r
    }
}

impl<T> Default for PaginatedList<T> {
    /// An empty list of five items a page.
    fn default() -> (r: Self)
        ensures
            r.values@.len() == 0,
            r.per_page == 5,
            r.total == 0,
    {
        PaginatedList { values: Vec::new(), per_page: 5, total: 0 }
    }
}

} // verus!
