//! The domain model of a Conduit ("RealWorld") client: entities, routing,
//! request addresses, server error handling and the state machines of the
//! pages, each with a contract checked by Verus.

pub mod article;
pub mod author;
pub mod avatar;
pub mod credentials;
pub mod global_msg;
pub mod page;
pub mod page_number;
pub mod paginated_list;
pub mod problem;
pub mod profile;
pub mod request;
pub mod route;
pub mod session;
pub mod slug;
pub mod text;
pub mod username;
pub mod viewer;
