//! A verified CRUD service over one collection of blog posts.
//!
//! The collection itself is modelled as explicit state held by
//! [`repository::MongoRepo`]; the HTTP layer's decisions (identifier
//! validation, status mapping) are verified functions in [`api`].

pub mod api;
pub mod laws;
pub mod model;
pub mod oid;
pub mod repository;
pub mod routes;
