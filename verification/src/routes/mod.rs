//! The requests that the service answers.

pub mod router;
