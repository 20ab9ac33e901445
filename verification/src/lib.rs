//! A query builder for a PostgREST gateway: a chain of calls that names a
//! table or a stored procedure, filters, ordering and paging, and ends in
//! one HTTP request.

pub mod builder;
pub mod client;
pub mod filter;
pub mod headers;
pub mod laws;
pub mod request;
pub mod text;

pub use builder::Builder;
pub use client::Postgrest;
