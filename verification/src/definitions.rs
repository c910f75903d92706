//! Request, response and shared schema types for the remote store's API.
//! These are plain data carriers: the unverified shell serializes them.
pub mod bodies;
pub mod headers;
pub mod query_params;
pub mod responses;
pub mod shared;
