//! Request handling: the shapes of requests and answers, and the decisions
//! taken between two visits to the store.

pub mod api_response;
pub mod project;
pub mod issue;
