//! Instant messaging core.

pub mod clock;
pub mod domain;
pub mod entity;
pub mod error;
pub mod flow;
pub mod guarantees;
pub mod ids;
pub mod json;
pub mod realtime;
pub mod repo;
pub mod routes;
pub mod service;
pub mod store;
pub mod text;
