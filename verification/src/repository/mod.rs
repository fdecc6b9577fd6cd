//! What the repositories decide between two calls on the store, and the
//! contract of the repository of loans.

pub mod book;
pub mod checkout;
pub mod user;
