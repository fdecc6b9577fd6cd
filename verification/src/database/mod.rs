//! The rows that the store keeps and hands out.

pub mod auth;
pub mod book;
pub mod checkout;
pub mod user;
