//! Request dispatch for a product CRUD endpoint backed by a relational store.
//!
//! A request is classified into a [`route::Operation`]; the handler then
//! drives the store through a short sequence of statements and renders a
//! [`reply::Reply`]. The store and the JSON codec stay outside the library:
//! the caller performs each requested action and hands back what came of it.
//! [`laws`] states, and proves, how requests behave alone and in sequence.

pub mod config;
pub mod handler;
pub mod laws;
pub mod models;
pub mod reply;
pub mod route;
