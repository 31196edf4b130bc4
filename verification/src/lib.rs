//! Verified core of the conversations back end: the models that the API
//! serves, the JSON key handling and token checks of the authentication
//! layer, the tenant configuration, and the assembly of API responses.
pub mod json;
pub mod models;
pub mod text;
pub mod guid;
pub mod auth;
pub mod config;
pub mod database;
pub mod api;
pub mod jwt;
