//! Where a part of a page stands while its data loads.

use vstd::prelude::*;

verus! {

/// Loading, loading for long, loaded, or failed.
pub enum Status<T> {
    Loading,
    LoadingSlowly,
    Loaded(T),
    Failed,
}

impl<T> Default for Status<T> {
    fn default() -> (r: Self)
        ensures
            r is Loading,
    {
        Status::Loading
    }
}

/// What a part of a page shows for its status: nothing yet, the loading
/// sign, the loading error, or the loaded data.
pub enum Shown<'a, T> {
    Nothing,
    LoadingIcon,
    LoadingError,
    Loaded(&'a T),
}

impl<T> Status<T> {
    /// What the part shows: nothing while loading, the loading sign once
    /// loading takes long, the error after a failure, else the data.
    pub fn shown(&self) -> (r: Shown<'_, T>)
        ensures
            match *self {
                Status::Loading => r is Nothing,
                Status::LoadingSlowly => r is LoadingIcon,
                Status::Failed => r is LoadingError,
                Status::Loaded(t) => r == Shown::Loaded(&t),
            },
    {
        match self {
            Status::Loading => Shown::Nothing,
            Status::LoadingSlowly => Shown::LoadingIcon,
            Status::Failed => Shown::LoadingError,
            Status::Loaded(t) => Shown::Loaded(t),
        }
    }
}

} // verus!
