//! A library-management backend: the book catalogue's loans, with the rules
//! that keep one copy from being lent twice and that keep every loan's history.
//!
//! - [`transaction`] is the protocol by which a book is lent and taken back:
//!   it decides, step by step, what the store is to do next.
//! - [`ledger`] is a store in memory that answers the protocol, with
//!   transactions on several connections.
//! - [`laws`] and [`race`] state what holds of the store under every request,
//!   one after another and at once, and run requests either way.
//! - [`model`], [`database`] and [`api`] are the entities, the rows of the
//!   store, and what goes over the wire, with the conversions between them.
//! - [`repository`], [`password`], [`id`], [`role`], [`env`] and [`error`]
//!   hold what the repositories and handlers decide between their calls on
//!   the outside world; [`arith`] and [`text`] are small helpers.

pub mod api;
pub mod arith;
pub mod database;
pub mod env;
pub mod error;
pub mod id;
pub mod laws;
pub mod ledger;
pub mod model;
pub mod password;
pub mod race;
pub mod repository;
pub mod role;
pub mod text;
pub mod transaction;
