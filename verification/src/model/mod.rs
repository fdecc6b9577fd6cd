//! The domain's entities and the events that change them.

pub mod auth;
pub mod book;
pub mod checkout;
pub mod list;
pub mod user;
