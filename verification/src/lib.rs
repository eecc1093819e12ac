//! Campaigns and feedback collection: routes, request checks, identifiers and
//! the decisions taken around each store operation.
pub mod api;
pub mod errors;
pub mod ident;
pub mod pages;
pub mod text;
