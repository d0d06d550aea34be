//! Who is using the application: a signed-in viewer or a guest.

use vstd::prelude::*;
use crate::viewer::Viewer;

verus! {

/// The state of authentication shared by all pages.
pub enum Session {
    LoggedIn(Viewer),
    Guest,
}

impl Session {
    /// The viewer of a session, where someone is signed in.
    pub open spec fn spec_viewer(&self) -> Option<Viewer> {
        match self {
            Session::LoggedIn(v) => Some(*v),
            Session::Guest => None,
        }
    }

    /// A session for the viewer, or a guest session where there is none.
    pub fn new(viewer: Option<Viewer>) -> (r: Session)
        ensures
            r.spec_viewer() == viewer,
    {
        match viewer {
            Some(viewer) => Session::LoggedIn(viewer),
            None => Session::Guest,
        }
    }

    /// The signed-in viewer, if any.
    pub fn viewer(&self) -> (r: Option<&Viewer>)
        ensures
            r == match self.spec_viewer() {
                Some(v) => Some(&v),
                None => None::<&Viewer>,
            },
    {
        match self {
            Session::LoggedIn(viewer) => Some(viewer),
            Session::Guest => None,
        }
    }
}

impl Default for Session {
    fn default() -> (r: Self)
        ensures
            r.spec_viewer() is None,
    {
        Session::Guest
    }
}

impl Clone for Session {
    fn clone(&self) -> (r: Self)
        ensures
            r == *self,
    {
        match self {
            Session::LoggedIn(v) => Session::LoggedIn(v.clone()),
            Session::Guest => Session::Guest,
        }
    }
}

} // verus!
