//! The feeds of articles: their addresses, and the page of articles that the
//! server's answer gives.

pub mod load_for_home;
pub mod load_for_profile;
pub mod paging;
