//! What goes over the wire: the requests with their rules, the responses,
//! and what a handler decides between its calls.

pub mod auth;
pub mod book;
pub mod checkout;
pub mod extractor;
pub mod user;
pub mod validate;
