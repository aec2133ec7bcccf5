//! Core of a ticket tracker: projects, the issues filed under them, and the
//! decisions a request handler takes between two visits to the store.

pub mod config;
pub mod error;
pub mod handlers;
pub mod models;
pub mod routes;
pub mod store;
pub mod text;
