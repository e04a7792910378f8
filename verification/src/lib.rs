//! Paginated, filtered listing of election candidates.
//!
//! The core of the library turns a loosely validated client request into a
//! pair of parameterized statements (data selection and row counting) that
//! always share the same predicates, resolves 1-based pagination into a
//! limit/offset pair, maps storage rows into the domain entity, and
//! classifies store failures. Everything here is verified; the surrounding
//! process (HTTP transport, connection pool, configuration bootstrap) lives
//! outside the library and only hands plain values in and out.

pub mod config;
pub mod delivery;
pub mod domain;
pub mod model;
pub mod pagination;
pub mod query;
pub mod repository;
pub mod response;
pub mod usecase;
