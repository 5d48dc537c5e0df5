//! Token-based authentication: signed access and refresh tokens, the
//! register / login / refresh decisions, and the bearer-token gate.

pub mod jwt;
pub mod auth;
pub mod models;
pub mod gate;
pub mod password;
