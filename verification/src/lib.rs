//! A small books catalog: a domain model, a repository over a table of rows,
//! a service layer that owns the read-then-merge rule for partial updates,
//! and an HTTP surface that maps outcomes to status codes.
//!
//! The catalog's browser client — a rendering program that fetches the
//! listing over HTTP — is an external collaborator of this API and is not
//! part of this crate; it is specified only by the wire shapes the HTTP
//! surface states.

pub mod book_repo;
pub mod laws;
pub mod book_service;
pub mod ids;
pub mod ports;
pub mod rest_controller;
pub mod urls;
