//! The pages of the application: their state, and how each message changes
//! it and what it asks to be done.

pub mod article;
pub mod article_editor;
pub mod blank;
pub mod home;
pub mod login;
pub mod profile;
pub mod register;
pub mod settings;
pub mod status;
