//! A request-filter composition engine for HTTP routing.
//!
//! A [`filter::Filter`] inspects a request and either succeeds with an
//! ordered tuple of extracted values or fails with a [`reject::Rejection`].
//! Filters combine through sequential composition (`and`), alternative
//! composition (`or`) and pure transformation (`map`) into a routing table,
//! which is evaluated once per request, depth-first and left-to-right.

pub mod boxed;
pub mod extract;
pub mod filter;
pub mod parse;
pub mod reject;
pub mod request;
