//! What is wrong with a form, as shown above it.

use vstd::prelude::*;

verus! {

/// A problem with a form: an entry that is not valid, or an error that the
/// server reported.
pub enum Problem {
    InvalidEntry(String, String),
    ServerError(String),
}

impl Problem {
    /// A problem that the server reported.
    pub fn new_server_error(message: String) -> (r: Problem)
        ensures
            r == Problem::ServerError(message),
    {
        Problem::ServerError(message)
    }
}

/// The problems that stand for a list of error messages, one each, in order.
pub fn string_errors_to_problems(errors: Vec<String>) -> (r: Vec<Problem>)
    ensures
        r@.len() == errors@.len(),
        forall|i: int| 0 <= i < errors@.len() ==> #[trigger] r@[i] == Problem::ServerError(
            errors@[i],
        ),
{
    let mut r: Vec<Problem> = Vec::new();
    let mut i: usize = 0;
    while i < errors.len()
        invariant
            i <= errors.len(),
            r@.len() == i,
            forall|j: int| 0 <= j < i ==> #[trigger] r@[j] == Problem::ServerError(errors@[j]),
        decreases errors.len() - i,
    {
        r.push(Problem::new_server_error(errors[i].clone()));
        i = i + 1;
    }
    r
}

} // verus!
