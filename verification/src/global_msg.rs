//! Messages that every page hears.

use vstd::prelude::*;
use crate::route::Route;
use crate::session::Session;

verus! {

/// A message sent to all pages: a route was pushed, or the session changed.
pub enum GMsg {
    RoutePushed(Route),
    SessionChanged(Session),
}

} // verus!
