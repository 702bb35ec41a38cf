//! Users API: the request logic of a small JSON web service that keeps users
//! in a SQL database and authenticates callers by a bearer token.

pub mod config;
pub mod database;
pub mod error;
pub mod handlers;
pub mod middleware;
pub mod repositories;
