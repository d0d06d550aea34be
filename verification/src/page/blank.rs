//! The blank page, shown while no other page is chosen, and the page for an
//! address that names no page.

use vstd::prelude::*;

verus! {

/// The title of the blank page.
pub fn title() -> (r: &'static str)
    ensures
        r@ == "Blank"@,
{
    "Blank"
}

/// The title of the page for an address that names no page.
pub fn not_found_title() -> (r: &'static str)
    ensures
        r@ == "Page Not Found"@,
{
    "Page Not Found"
}

} // verus!
